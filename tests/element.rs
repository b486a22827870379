use mpdgen::{
    ContentPopularityRateBuilder, DescriptorBuilder, EventStreamBuilder, FailoverContentBuilder,
    FcsBuilder, LeapSecondInformationBuilder, MPDBuilder, MetricsBuilder, ModelPairBuilder,
    NoWhitespace, PopularityRateBuilder, PreselectionBuilder, PresentationType,
    ProducerReferenceTimeBuilder, ProducerReferenceTimeType, Profile, RandomAccessBuilder,
    RepresentationBuilder, SegmentBuilder, ServiceDescriptionBuilder, Source, StringVector,
    SubRepresentationBuilder, SubsetBuilder, SwitchingBuilder, UIntVWithIDBuilder, UIntVector,
    XsDateTime, XsDuration,
};

fn now() -> XsDateTime {
    let t = chrono::Utc::now();
    XsDateTime::from_timestamp(t.timestamp(), t.timestamp_subsec_nanos()).unwrap()
}

#[test]
fn test_element_u_int_v_with_id_valid() {
    assert!(UIntVWithIDBuilder::default().id(1u32).build().is_ok());
    assert!(UIntVWithIDBuilder::default().build().is_err());
}

#[test]
fn test_element_metrics_valid() {
    let reporting = DescriptorBuilder::default()
        .scheme_id_uri("https://example.com")
        .build()
        .unwrap();
    assert!(MetricsBuilder::default()
        .metrics("metric_key1,metric_key2")
        .reporting(vec![reporting.clone()])
        .build()
        .is_ok());
    assert!(MetricsBuilder::default().build().is_err());
    assert!(MetricsBuilder::default()
        .metrics("metric_key1,metric_key2")
        .build()
        .is_err());
    assert!(MetricsBuilder::default()
        .reporting(vec![reporting])
        .build()
        .is_err());
}

#[test]
fn test_element_leap_second_information_valid() {
    assert!(LeapSecondInformationBuilder::default()
        .availability_start_leap_offset(1i32)
        .build()
        .is_ok());
    assert!(LeapSecondInformationBuilder::default().build().is_err());
}

#[test]
fn test_element_descriptor_valid() {
    assert!(DescriptorBuilder::default()
        .scheme_id_uri("https://example.com")
        .build()
        .is_ok());
    assert!(DescriptorBuilder::default().build().is_err());
}

#[test]
fn test_element_event_stream_valid() {
    assert!(EventStreamBuilder::default()
        .scheme_id_uri("https://example.com")
        .build()
        .is_ok());
    assert!(EventStreamBuilder::default().build().is_err());
}

#[test]
fn test_element_switching_valid() {
    assert!(SwitchingBuilder::default().interval(1u32).build().is_ok());
    assert!(SwitchingBuilder::default().build().is_err());
}

#[test]
fn test_element_random_access_valid() {
    assert!(RandomAccessBuilder::default()
        .interval(1u32)
        .build()
        .is_ok());
    assert!(RandomAccessBuilder::default().build().is_err());
}

#[test]
fn test_element_producer_reference_time_valid() {
    assert!(ProducerReferenceTimeBuilder::default()
        .id(1u32)
        .wall_clock_time("12345")
        .presentation_time(1u64)
        .build()
        .is_ok());
    assert!(ProducerReferenceTimeBuilder::default().build().is_err());
    assert!(ProducerReferenceTimeBuilder::default()
        .id(1u32)
        .wall_clock_time("12345")
        .presentation_time(1u64)
        .type_(ProducerReferenceTimeType::Application)
        .application_scheme("https://example.com")
        .build()
        .is_ok());
    assert!(ProducerReferenceTimeBuilder::default()
        .id(1u32)
        .wall_clock_time("12345")
        .presentation_time(1u64)
        .type_(ProducerReferenceTimeType::Application)
        .build()
        .is_err());
}

#[test]
fn test_element_popularity_rate_valid() {
    assert!(PopularityRateBuilder::default()
        .popularity_rate(1u32)
        .build()
        .is_ok());
    assert!(PopularityRateBuilder::default().build().is_err());
    assert!(PopularityRateBuilder::default()
        .popularity_rate(0u32)
        .build()
        .is_err());
}

#[test]
fn test_element_content_popularity_rate_valid() {
    let popularity_rate = PopularityRateBuilder::default()
        .popularity_rate(1u32)
        .build()
        .unwrap();

    assert!(ContentPopularityRateBuilder::default()
        .source(Source::Content)
        .popularity_rates(vec![popularity_rate.clone()])
        .build()
        .is_ok());
    assert!(ContentPopularityRateBuilder::default()
        .source(Source::Content)
        .build()
        .is_err());
    assert!(ContentPopularityRateBuilder::default()
        .popularity_rates(vec![popularity_rate.clone()])
        .build()
        .is_err());
}

#[test]
fn test_element_model_pair_vaild() {
    assert!(ModelPairBuilder::default()
        .buffer_time(XsDuration::from_secs(5))
        .bandwidth(2_000_000u32)
        .build()
        .is_ok());
    assert!(ModelPairBuilder::default().build().is_err());
    assert!(ModelPairBuilder::default()
        .buffer_time(XsDuration::from_secs(5))
        .build()
        .is_err());
    assert!(ModelPairBuilder::default()
        .bandwidth(2_000_000u32)
        .build()
        .is_err());
}

#[test]
fn test_element_service_description_vaild() {
    assert!(ServiceDescriptionBuilder::default()
        .id(1u32)
        .build()
        .is_ok());
    assert!(ServiceDescriptionBuilder::default().build().is_err());
}

#[test]
fn test_element_subset_valid() {
    let contains = UIntVector::from(vec![1u32, 2, 3]);
    assert!(SubsetBuilder::default().contains(contains).build().is_ok());
    assert!(SubsetBuilder::default().build().is_err());
}

#[test]
fn test_element_preselection_valid() {
    let preselection_components =
        StringVector::from(vec!["id_1".to_string(), "id_2".to_string()]);
    assert!(PreselectionBuilder::default()
        .preselection_components(preselection_components)
        .build()
        .is_ok());
    assert!(PreselectionBuilder::default().build().is_err());
}

#[test]
fn test_element_fcs_valid() {
    assert!(FcsBuilder::default().start_time(1u64).build().is_ok());
    assert!(FcsBuilder::default().build().is_err());
}

#[test]
fn test_element_failover_content_valid() {
    let fcs = FcsBuilder::default().start_time(1u64).build().unwrap();
    assert!(FailoverContentBuilder::default()
        .fcs_list(vec![fcs])
        .build()
        .is_ok());
    assert!(FailoverContentBuilder::default().build().is_err());
}

#[test]
fn test_element_representation_vaild() {
    assert!(RepresentationBuilder::default()
        .id(NoWhitespace::from_str("720p").unwrap())
        .bandwidth(2_000_000u32)
        .build()
        .is_ok());
    assert!(RepresentationBuilder::default().build().is_err());
}

#[test]
fn test_element_sub_representation_vaild() {
    assert!(SubRepresentationBuilder::default().build().is_ok());
    assert!(SubRepresentationBuilder::default()
        .level(1u32)
        .bandwidth(2_000_000u32)
        .build()
        .is_ok());
    assert!(SubRepresentationBuilder::default()
        .level(1u32)
        .build()
        .is_err());
}

#[test]
fn test_element_segment_valid() {
    assert!(SegmentBuilder::default().duration(1u64).build().is_ok());
    assert!(SegmentBuilder::default().build().is_err());
}

#[test]
fn test_element_mpd_valid() {
    assert!(MPDBuilder::default()
        .profiles(vec![Profile::Full])
        .build()
        .is_ok());
    assert!(MPDBuilder::default()
        .profiles(vec![Profile::Full])
        .type_(PresentationType::Dynamic)
        .availability_start_time(now())
        .publish_time(now())
        .build()
        .is_ok());
}

#[test]
fn test_element_mpd_invalid() {
    assert!(MPDBuilder::default().build().is_err());
    assert!(MPDBuilder::default()
        .profiles(vec![Profile::Full])
        .type_(PresentationType::Dynamic)
        .build()
        .is_err());
    assert!(MPDBuilder::default()
        .profiles(vec![Profile::Full])
        .type_(PresentationType::Dynamic)
        .availability_start_time(now())
        .build()
        .is_err());
    assert!(MPDBuilder::default()
        .profiles(vec![Profile::Full])
        .type_(PresentationType::Dynamic)
        .publish_time(now())
        .build()
        .is_err());
}

#[test]
fn test_element_adaptation_set() {
    let segment_timeline = mpdgen::SegmentTimelineBuilder::default()
        .segment(
            SegmentBuilder::default()
                .duration(15000u64)
                .start_time(0u64)
                .repeat_count(mpdgen::XsInteger::from_i64(10))
                .build()
                .unwrap(),
        )
        .build()
        .unwrap();
    let segment_template = mpdgen::SegmentTemplateBuilder::default()
        .initialization_attribute("$RepresentationID$.cmfi")
        .media("$RepresentationID$/$Time$.cmfv")
        .timescale(3000u32)
        .segment_timeline(segment_timeline)
        .build()
        .unwrap();

    let representation = RepresentationBuilder::default()
        .id(NoWhitespace::from_str("720p").unwrap())
        .codecs(mpdgen::Codecs::from_str("avc1.4d0028").unwrap())
        .bandwidth(4_000_000u32)
        .width(1280u32)
        .height(720u32)
        .build()
        .unwrap();

    let role = DescriptorBuilder::default()
        .scheme_id_uri("urn:mpeg:dash:role:2011")
        .value("main")
        .build()
        .unwrap();

    let adapt = mpdgen::AdaptationSetBuilder::default()
        .content_type(mpdgen::ContentType::Video)
        .segment_alignment(true)
        .mime_type("video/mp4")
        .start_with_sap(mpdgen::StreamAccessPoint::Type1)
        .role(vec![role])
        .segment_template(segment_template)
        .representation(vec![representation])
        .build()
        .unwrap();

    assert_eq!(adapt.representation().as_ref().unwrap().len(), 1);
}
