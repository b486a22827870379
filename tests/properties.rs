use mpdgen::{
    Codecs, DescriptorBuilder, FourCC, FrameRate, MPDBuilder, MetricsBuilder, MpdError,
    PresentationType, ProducerReferenceTimeBuilder, ProducerReferenceTimeType, Profile, Ratio,
    RepresentationBuilder, SegmentBaseBuilder, SegmentBuilder, SegmentTemplateBuilder,
    SegmentTimelineBuilder, SingleByteRange, StreamAccessPoint, UIntVector, XsDateTime,
    XsDouble, XsDuration, XsInteger, NoWhitespace, PopularityRateBuilder, PeriodBuilder,
    Identifier, AudioSamplingRate,
};

#[test]
fn duration_round_trips_its_canonical_text() {
    let d = XsDuration::from_str("PT3H11M53S").unwrap();
    assert_eq!(d.to_string(), "PT3H11M53S");
    assert_eq!(d.as_secs(), 3 * 3600 + 11 * 60 + 53);
    let again = XsDuration::from_str(&d.to_string()).unwrap();
    assert_eq!(again, d);
}

#[test]
fn duration_seconds_alone_and_small_fractions() {
    let d = XsDuration::from_str("PT30S").unwrap();
    assert_eq!(d.to_string(), "PT30S");
    let d = XsDuration::new(0, 5);
    assert_eq!(d.to_string(), "PT0.000000005S");
    assert_eq!(XsDuration::from_str(&d.to_string()).unwrap(), d);
    let d = XsDuration::from_str("PT1.1234567891S").unwrap();
    assert_eq!(d.subsec_nanos(), 123_456_789);
}

#[test]
fn duration_overflow_is_rejected() {
    assert!(XsDuration::from_str("P999999999999999999999Y").is_err());
    assert!(XsDuration::from_str("PT18446744073709551615S").is_ok());
    assert!(XsDuration::from_str("PT18446744073709551616S").is_err());
}

#[test]
fn formatting_twice_gives_the_same_text() {
    for s in ["PT21972H35M30S", "-PT48H1M30.123456789S", "PT0.5S"] {
        let once = XsDuration::from_str(s).unwrap().to_string();
        let twice = XsDuration::from_str(&once).unwrap().to_string();
        assert_eq!(once, twice);
    }
    let once = Ratio::from_str("1920:1080").unwrap().to_string();
    let twice = Ratio::from_str(&once).unwrap().to_string();
    assert_eq!(once, twice);
}

#[test]
fn ratio_rejection_and_reduction() {
    assert!(matches!(Ratio::from_str("16:"), Err(MpdError::ParseIntError)));
    assert!(matches!(Ratio::from_str("16:9:1"), Err(MpdError::UnmatchedPattern)));
    let r = Ratio::from_str("16:9").unwrap();
    assert_eq!((r.horizontal(), r.vertical()), (16, 9));
    let r = Ratio::from_str("1920:1080").unwrap();
    assert_eq!((r.horizontal(), r.vertical()), (16, 9));
    assert_eq!(r.to_string(), "16:9");
    let r = Ratio::new(0, 5);
    assert_eq!((r.horizontal(), r.vertical()), (0, 1));
}

#[test]
fn framerate_default_denominator() {
    assert_eq!(FrameRate::from_str("30").unwrap().to_string(), "30/1");
    assert_eq!(FrameRate::from_str("60/30").unwrap().to_string(), "2/1");
    assert_eq!(FrameRate::from_str("0/5").unwrap().to_string(), "0/1");
    assert!(matches!(FrameRate::from_str("30/0"), Err(MpdError::InvalidData(_))));
    assert!(matches!(FrameRate::from_str("1/2/3"), Err(MpdError::UnmatchedPattern)));
}

#[test]
fn codecs_disambiguation() {
    let c = Codecs::from_str("avc1.4d0028,mp4a.40.2").unwrap();
    assert!(matches!(c, Codecs::Fancy(_)));
    assert_eq!(c.to_string(), "avc1.4d0028,mp4a.40.2");
    let c = Codecs::from_str("avc1,mp4a").unwrap();
    assert!(matches!(c, Codecs::Simp(_)));
    assert_eq!(c.to_string(), "avc1,mp4a");
    assert!(Codecs::from_str("avc1.4d0028;mp4a.40.2").is_err());
}

#[test]
fn byte_range_ordering() {
    assert!(SingleByteRange::from_str("500-499").is_err());
    let r = SingleByteRange::from_str("0-499").unwrap();
    assert_eq!((r.first(), r.last()), (0, Some(499)));
    let r = SingleByteRange::from_str("500-").unwrap();
    assert_eq!((r.first(), r.last()), (500, None));
    assert!(SingleByteRange::try_from((5, 4)).is_err());
    assert_eq!(SingleByteRange::try_from((4, 5)).unwrap().to_string(), "4-5");
    assert_eq!(SingleByteRange::from(7).to_string(), "7-");
}

fn prt() -> ProducerReferenceTimeBuilder {
    ProducerReferenceTimeBuilder::default()
        .id(1u32)
        .wall_clock_time("12345")
        .presentation_time(1u64)
}

#[test]
fn producer_reference_time_conditional_both_ways() {
    assert!(matches!(
        prt().type_(ProducerReferenceTimeType::Application).build(),
        Err(MpdError::MissingRequiredField(_))
    ));
    assert!(prt()
        .type_(ProducerReferenceTimeType::Application)
        .application_scheme("urn:scheme")
        .build()
        .is_ok());
    assert!(matches!(
        prt()
            .type_(ProducerReferenceTimeType::Encoder)
            .application_scheme("urn:scheme")
            .build(),
        Err(MpdError::InvalidFieldCombination(_))
    ));
    assert!(prt().application_scheme("urn:scheme").build().is_err());
}

#[test]
fn metrics_without_reporting_fails() {
    let r = MetricsBuilder::default()
        .metrics("a")
        .reporting(vec![])
        .build();
    assert!(matches!(r, Err(MpdError::EmptyRequiredCollection(_))));
}

#[test]
fn popularity_rate_range() {
    assert!(PopularityRateBuilder::default().popularity_rate(100u32).build().is_ok());
    assert!(matches!(
        PopularityRateBuilder::default().popularity_rate(101u32).build(),
        Err(MpdError::OutOfRange(_))
    ));
}

fn instant() -> XsDateTime {
    XsDateTime::from_timestamp(1_081_776_000, 0).unwrap()
}

#[test]
fn root_dynamic_needs_both_times() {
    let base = || MPDBuilder::default().profiles(vec![Profile::Full]).type_(PresentationType::Dynamic);
    assert!(base().availability_start_time(instant()).build().is_err());
    assert!(base().publish_time(instant()).build().is_err());
    let mpd = base()
        .availability_start_time(instant())
        .publish_time(instant())
        .build()
        .unwrap();
    assert_eq!(mpd.xmlns().as_deref(), Some("urn:mpeg:dash:schema:mpd:2011"));
    assert_eq!(
        mpd.xsi_schema_location().as_ref().unwrap().to_string(),
        "urn:mpeg:dash:schema:mpd:2011 DASH-MPD.xsd"
    );
    assert!(MPDBuilder::default().profiles(vec![]).build().is_err());
}

#[test]
fn segment_schemes_are_exclusive() {
    let r = RepresentationBuilder::default()
        .id(NoWhitespace::from_str("720p").unwrap())
        .bandwidth(1u32)
        .segment_base(SegmentBaseBuilder::default().build().unwrap())
        .segment_template(SegmentTemplateBuilder::default().build().unwrap())
        .build();
    assert!(matches!(r, Err(MpdError::InvalidFieldCombination(_))));
    assert!(PeriodBuilder::default()
        .segment_template(SegmentTemplateBuilder::default().build().unwrap())
        .build()
        .is_ok());
}

#[test]
fn segment_duration_must_be_positive() {
    assert!(matches!(
        SegmentBuilder::default().duration(0u64).build(),
        Err(MpdError::OutOfRange(_))
    ));
    let s = SegmentBuilder::default().duration(5u64).build().unwrap();
    let timeline = SegmentTimelineBuilder::default()
        .segments(vec![s.clone(), s.clone()])
        .segment(s)
        .build()
        .unwrap();
    assert_eq!(timeline.segments().len(), 3);
}

#[test]
fn fourcc_integer_and_text_forms() {
    let f = FourCC::from_str("MPEG").unwrap();
    assert_eq!(f.to_u32(), 0x4D50_4547);
    assert_eq!(FourCC::from_u32(0x4D50_4547), f);
    assert_eq!(f.to_string(), "MPEG");
    let odd = FourCC::from_bytes([0xff, b'a', b'b', b'c']);
    assert_eq!(odd.to_string(), "\u{fffd}abc");
}

#[test]
fn integer_canonical_form() {
    assert_eq!(XsInteger::from_str("00122").unwrap().to_string(), "122");
    assert_eq!(XsInteger::from_str("+3").unwrap().to_string(), "3");
    assert_eq!(XsInteger::from_str("-0").unwrap().to_string(), "0");
    assert_eq!(XsInteger::from_str("-0042").unwrap().to_string(), "-42");
    assert_eq!(
        XsInteger::from_str("123456789012345678901234567890").unwrap().to_string(),
        "123456789012345678901234567890"
    );
    assert_eq!(XsInteger::from_i64(i64::MIN).to_string(), "-9223372036854775808");
}

#[test]
fn datetime_offset_is_normalised_to_utc() {
    let d = XsDateTime::from_str("2004-04-12T13:20:00-05:00").unwrap();
    assert_eq!(&d.to_string(), "2004-04-12T18:20:00Z");
    assert_eq!(d.timestamp(), 1_081_794_000);
}

#[test]
fn stream_access_point_range() {
    assert_eq!(StreamAccessPoint::from_str("3").unwrap(), StreamAccessPoint::Type3);
    assert!(matches!(StreamAccessPoint::from_str("7"), Err(MpdError::InvalidData(_))));
    assert!(matches!(StreamAccessPoint::from_str("256"), Err(MpdError::ParseIntError)));
    assert_eq!(StreamAccessPoint::Type6.to_string(), "6");
}

#[test]
fn double_lexical_forms() {
    for s in ["10.1", "-1E4", "1e-2", ".5", "5.", "INF", "-INF", "NaN", "+3"] {
        assert_eq!(XsDouble::from_str(s).unwrap().to_string(), s);
    }
    for s in ["", ".", "e5", "1e", "1.2.3", "inf", "1 "] {
        assert!(XsDouble::from_str(s).is_err());
    }
}

#[test]
fn list_round_trip_and_empty() {
    let l = UIntVector::from_str(" 1\t2  3 ").unwrap();
    assert_eq!(l.to_string(), "1 2 3");
    assert_eq!(UIntVector::from_str("").unwrap().to_string(), "");
    assert_eq!(AudioSamplingRate::from_str("44100 48000").unwrap().to_string(), "44100 48000");
}

#[test]
fn template_identifiers() {
    assert_eq!(Identifier::from_str("$Number$").unwrap(), Identifier::Number);
    assert!(Identifier::from_str("$Other$").is_err());
    assert_eq!(Identifier::RepresentationID.to_string(), "$RepresentationID$");
}

#[test]
fn descriptor_keeps_its_fields() {
    let d = DescriptorBuilder::default()
        .scheme_id_uri("urn:mpeg:dash:role:2011")
        .value("main")
        .build()
        .unwrap();
    assert_eq!(d.scheme_id_uri().to_string(), "urn:mpeg:dash:role:2011");
    assert_eq!(d.value().as_deref(), Some("main"));
}

#[test]
fn comma_separated_list_forms() {
    let l = mpdgen::CommaSeparatedList::<u32>::from_str("1,2,3").unwrap();
    assert_eq!(l.items().clone(), vec![1, 2, 3]);
    assert_eq!(l.to_string(), "1,2,3");
    let e = mpdgen::CommaSeparatedList::<u32>::from_str("").unwrap();
    assert_eq!(e.items().len(), 0);
    assert_eq!(e.to_string(), "");
    assert!(mpdgen::CommaSeparatedList::<u32>::from_str("1,,2").is_err());
    assert!(mpdgen::CommaSeparatedList::<u32>::from_str("1, 2").is_err());
}

#[test]
fn zero_duration_round_trips() {
    for d in [XsDuration::from_secs(0), XsDuration::new(0, 0), XsDuration::from_str("P0Y").unwrap()] {
        assert_eq!(d.to_string(), "PT0S");
        assert_eq!(XsDuration::from_str(&d.to_string()).unwrap(), d);
    }
    let d = XsDuration::from_str("PT1H").unwrap();
    assert_eq!(d.to_string(), "PT1H");
    let d = XsDuration::from_str("PT30.05S").unwrap();
    assert_eq!(d.to_string(), "PT30.05S");
    let mpd = MPDBuilder::default().profiles(vec![Profile::Full]).build().unwrap();
    assert_eq!(mpd.min_buffer_time().to_string(), "PT0S");
}

#[test]
fn list_errors_pass_on_the_element_error() {
    assert!(matches!(UIntVector::from_str("1 x 2"), Err(MpdError::ParseIntError)));
    assert!(matches!(
        mpdgen::WhitespaceSeparatedList::<XsDuration>::from_str("PT1S P"),
        Err(MpdError::UnmatchedPattern)
    ));
    assert!(matches!(
        mpdgen::CommaSeparatedList::<StreamAccessPoint>::from_str("1,9"),
        Err(MpdError::InvalidData(_))
    ));
    assert!(matches!(AudioSamplingRate::from_str("1 a"), Err(MpdError::ParseIntError)));
    assert!(matches!(AudioSamplingRate::from_str("1 2 3"), Err(MpdError::InvalidData(_))));
}

#[test]
fn known_profiles_get_their_variant() {
    assert_eq!(Profile::from_str("urn:mpeg:dash:profile:cmaf:2019").unwrap(), Profile::Cmaf);
    assert_eq!(
        Profile::from_str("urn:mpeg:dash:profile:isoff-live:2011").unwrap(),
        Profile::IsoLive
    );
    assert_eq!(
        Profile::from_str("urn:example:other").unwrap(),
        Profile::Other("urn:example:other".to_string())
    );
}

#[test]
fn defaults() {
    assert_eq!(FrameRate::default().to_string(), "0/1");
    assert_eq!(Ratio::default().to_string(), "0:0");
}
