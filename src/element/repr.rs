use vstd::prelude::*;

use crate::codecs::Codecs;
use crate::definition::{ListOfProfiles, Profile};
use crate::element::{
    BaseURL, ContentPopularityRate, ContentProtection, Descriptor, EventStream, ExtendedBandwidth,
    Label, NeedValidater, ProducerReferenceTime, RandomAccess, Resync, Switching,
};
use crate::element::segment::{SegmentBase, SegmentList, SegmentTemplate};
use crate::enums::VideoScan;
use crate::error::MpdError;
use crate::lists::{AudioSamplingRate, ListOfFourCC, StringVector, UIntVector};
use crate::ratio::{FrameRate, Ratio};
use crate::types::{NoWhitespace, StreamAccessPoint, Tag, XsDouble};

verus! {


/// Representation.
///
/// Built only through [`RepresentationBuilder`], which checks its rules.
#[derive(Debug, Clone, PartialEq, Eq)]
pub struct Representation {
    id: NoWhitespace,
    bandwidth: u32,
    quality_ranking: Option<u32>,
    dependency_id: Option<StringVector>,
    association_id: Option<StringVector>,
    association_type: Option<ListOfFourCC>,
    media_stream_structure_id: Option<StringVector>,
    profiles: Option<ListOfProfiles>,
    width: Option<u32>,
    height: Option<u32>,
    sar: Option<Ratio>,
    framerate: Option<FrameRate>,
    audio_sampling_rate: Option<AudioSamplingRate>,
    mime_type: Option<String>,
    segment_profiles: Option<ListOfFourCC>,
    codecs: Option<Codecs>,
    container_profiles: Option<ListOfFourCC>,
    maximum_sap_period: Option<XsDouble>,
    start_with_sap: Option<StreamAccessPoint>,
    max_playout_rate: Option<XsDouble>,
    coding_dependency: Option<bool>,
    scan_type: Option<VideoScan>,
    selection_priority: Option<u32>,
    tag: Option<Tag>,
    frame_packing: Option<Vec<Descriptor>>,
    audio_channel_configuration: Option<Vec<Descriptor>>,
    content_protection: Option<Vec<ContentProtection>>,
    output_protection: Option<Vec<Descriptor>>,
    essential_property: Option<Vec<Descriptor>>,
    supplemental_property: Option<Vec<Descriptor>>,
    inband_event_stream: Option<Vec<EventStream>>,
    switching: Option<Vec<Switching>>,
    random_access: Option<Vec<RandomAccess>>,
    group_lavel: Option<Vec<Label>>,
    lavel: Option<Vec<Label>>,
    producer_reference_time: Option<Vec<ProducerReferenceTime>>,
    content_popularity_rate: Option<Vec<ContentPopularityRate>>,
    resync: Option<Vec<Resync>>,
    base_url: Option<Vec<BaseURL>>,
    extended_bandwidth: Option<Vec<ExtendedBandwidth>>,
    sub_representation: Option<Vec<SubRepresentation>>,
    segment_base: Option<SegmentBase>,
    segment_list: Option<SegmentList>,
    segment_template: Option<SegmentTemplate>,
}

impl Representation {
    pub closed spec fn spec_id(&self) -> NoWhitespace {
        self.id
    }

    pub closed spec fn spec_bandwidth(&self) -> u32 {
        self.bandwidth
    }

    pub closed spec fn spec_quality_ranking(&self) -> Option<u32> {
        self.quality_ranking
    }

    pub closed spec fn spec_dependency_id(&self) -> Option<StringVector> {
        self.dependency_id
    }

    pub closed spec fn spec_association_id(&self) -> Option<StringVector> {
        self.association_id
    }

    pub closed spec fn spec_association_type(&self) -> Option<ListOfFourCC> {
        self.association_type
    }

    pub closed spec fn spec_media_stream_structure_id(&self) -> Option<StringVector> {
        self.media_stream_structure_id
    }

    pub closed spec fn spec_profiles(&self) -> Option<ListOfProfiles> {
        self.profiles
    }

    pub closed spec fn spec_width(&self) -> Option<u32> {
        self.width
    }

    pub closed spec fn spec_height(&self) -> Option<u32> {
        self.height
    }

    pub closed spec fn spec_sar(&self) -> Option<Ratio> {
        self.sar
    }

    pub closed spec fn spec_framerate(&self) -> Option<FrameRate> {
        self.framerate
    }

    pub closed spec fn spec_audio_sampling_rate(&self) -> Option<AudioSamplingRate> {
        self.audio_sampling_rate
    }

    pub closed spec fn spec_mime_type(&self) -> Option<String> {
        self.mime_type
    }

    pub closed spec fn spec_segment_profiles(&self) -> Option<ListOfFourCC> {
        self.segment_profiles
    }

    pub closed spec fn spec_codecs(&self) -> Option<Codecs> {
        self.codecs
    }

    pub closed spec fn spec_container_profiles(&self) -> Option<ListOfFourCC> {
        self.container_profiles
    }

    pub closed spec fn spec_maximum_sap_period(&self) -> Option<XsDouble> {
        self.maximum_sap_period
    }

    pub closed spec fn spec_start_with_sap(&self) -> Option<StreamAccessPoint> {
        self.start_with_sap
    }

    pub closed spec fn spec_max_playout_rate(&self) -> Option<XsDouble> {
        self.max_playout_rate
    }

    pub closed spec fn spec_coding_dependency(&self) -> Option<bool> {
        self.coding_dependency
    }

    pub closed spec fn spec_scan_type(&self) -> Option<VideoScan> {
        self.scan_type
    }

    pub closed spec fn spec_selection_priority(&self) -> Option<u32> {
        self.selection_priority
    }

    pub closed spec fn spec_tag(&self) -> Option<Tag> {
        self.tag
    }

    pub closed spec fn spec_frame_packing(&self) -> Option<Vec<Descriptor>> {
        self.frame_packing
    }

    pub closed spec fn spec_audio_channel_configuration(&self) -> Option<Vec<Descriptor>> {
        self.audio_channel_configuration
    }

    pub closed spec fn spec_content_protection(&self) -> Option<Vec<ContentProtection>> {
        self.content_protection
    }

    pub closed spec fn spec_output_protection(&self) -> Option<Vec<Descriptor>> {
        self.output_protection
    }

    pub closed spec fn spec_essential_property(&self) -> Option<Vec<Descriptor>> {
        self.essential_property
    }

    pub closed spec fn spec_supplemental_property(&self) -> Option<Vec<Descriptor>> {
        self.supplemental_property
    }

    pub closed spec fn spec_inband_event_stream(&self) -> Option<Vec<EventStream>> {
        self.inband_event_stream
    }

    pub closed spec fn spec_switching(&self) -> Option<Vec<Switching>> {
        self.switching
    }

    pub closed spec fn spec_random_access(&self) -> Option<Vec<RandomAccess>> {
        self.random_access
    }

    pub closed spec fn spec_group_lavel(&self) -> Option<Vec<Label>> {
        self.group_lavel
    }

    pub closed spec fn spec_lavel(&self) -> Option<Vec<Label>> {
        self.lavel
    }

    pub closed spec fn spec_producer_reference_time(&self) -> Option<Vec<ProducerReferenceTime>> {
        self.producer_reference_time
    }

    pub closed spec fn spec_content_popularity_rate(&self) -> Option<Vec<ContentPopularityRate>> {
        self.content_popularity_rate
    }

    pub closed spec fn spec_resync(&self) -> Option<Vec<Resync>> {
        self.resync
    }

    pub closed spec fn spec_base_url(&self) -> Option<Vec<BaseURL>> {
        self.base_url
    }

    pub closed spec fn spec_extended_bandwidth(&self) -> Option<Vec<ExtendedBandwidth>> {
        self.extended_bandwidth
    }

    pub closed spec fn spec_sub_representation(&self) -> Option<Vec<SubRepresentation>> {
        self.sub_representation
    }

    pub closed spec fn spec_segment_base(&self) -> Option<SegmentBase> {
        self.segment_base
    }

    pub closed spec fn spec_segment_list(&self) -> Option<SegmentList> {
        self.segment_list
    }

    pub closed spec fn spec_segment_template(&self) -> Option<SegmentTemplate> {
        self.segment_template
    }

    pub fn id(&self) -> (r: &NoWhitespace)
        ensures
            *r == self.spec_id(),
    {
        &self.id
    }

    pub fn bandwidth(&self) -> (r: &u32)
        ensures
            *r == self.spec_bandwidth(),
    {
        &self.bandwidth
    }

    pub fn quality_ranking(&self) -> (r: &Option<u32>)
        ensures
            *r == self.spec_quality_ranking(),
    {
        &self.quality_ranking
    }

    pub fn dependency_id(&self) -> (r: &Option<StringVector>)
        ensures
            *r == self.spec_dependency_id(),
    {
        &self.dependency_id
    }

    pub fn association_id(&self) -> (r: &Option<StringVector>)
        ensures
            *r == self.spec_association_id(),
    {
        &self.association_id
    }

    pub fn association_type(&self) -> (r: &Option<ListOfFourCC>)
        ensures
            *r == self.spec_association_type(),
    {
        &self.association_type
    }

    pub fn media_stream_structure_id(&self) -> (r: &Option<StringVector>)
        ensures
            *r == self.spec_media_stream_structure_id(),
    {
        &self.media_stream_structure_id
    }

    pub fn profiles(&self) -> (r: &Option<ListOfProfiles>)
        ensures
            *r == self.spec_profiles(),
    {
        &self.profiles
    }

    pub fn width(&self) -> (r: &Option<u32>)
        ensures
            *r == self.spec_width(),
    {
        &self.width
    }

    pub fn height(&self) -> (r: &Option<u32>)
        ensures
            *r == self.spec_height(),
    {
        &self.height
    }

    pub fn sar(&self) -> (r: &Option<Ratio>)
        ensures
            *r == self.spec_sar(),
    {
        &self.sar
    }

    pub fn framerate(&self) -> (r: &Option<FrameRate>)
        ensures
            *r == self.spec_framerate(),
    {
        &self.framerate
    }

    pub fn audio_sampling_rate(&self) -> (r: &Option<AudioSamplingRate>)
        ensures
            *r == self.spec_audio_sampling_rate(),
    {
        &self.audio_sampling_rate
    }

    pub fn mime_type(&self) -> (r: &Option<String>)
        ensures
            *r == self.spec_mime_type(),
    {
        &self.mime_type
    }

    pub fn segment_profiles(&self) -> (r: &Option<ListOfFourCC>)
        ensures
            *r == self.spec_segment_profiles(),
    {
        &self.segment_profiles
    }

    pub fn codecs(&self) -> (r: &Option<Codecs>)
        ensures
            *r == self.spec_codecs(),
    {
        &self.codecs
    }

    pub fn container_profiles(&self) -> (r: &Option<ListOfFourCC>)
        ensures
            *r == self.spec_container_profiles(),
    {
        &self.container_profiles
    }

    pub fn maximum_sap_period(&self) -> (r: &Option<XsDouble>)
        ensures
            *r == self.spec_maximum_sap_period(),
    {
        &self.maximum_sap_period
    }

    pub fn start_with_sap(&self) -> (r: &Option<StreamAccessPoint>)
        ensures
            *r == self.spec_start_with_sap(),
    {
        &self.start_with_sap
    }

    pub fn max_playout_rate(&self) -> (r: &Option<XsDouble>)
        ensures
            *r == self.spec_max_playout_rate(),
    {
        &self.max_playout_rate
    }

    pub fn coding_dependency(&self) -> (r: &Option<bool>)
        ensures
            *r == self.spec_coding_dependency(),
    {
        &self.coding_dependency
    }

    pub fn scan_type(&self) -> (r: &Option<VideoScan>)
        ensures
            *r == self.spec_scan_type(),
    {
        &self.scan_type
    }

    pub fn selection_priority(&self) -> (r: &Option<u32>)
        ensures
            *r == self.spec_selection_priority(),
    {
        &self.selection_priority
    }

    pub fn tag(&self) -> (r: &Option<Tag>)
        ensures
            *r == self.spec_tag(),
    {
        &self.tag
    }

    pub fn frame_packing(&self) -> (r: &Option<Vec<Descriptor>>)
        ensures
            *r == self.spec_frame_packing(),
    {
        &self.frame_packing
    }

    pub fn audio_channel_configuration(&self) -> (r: &Option<Vec<Descriptor>>)
        ensures
            *r == self.spec_audio_channel_configuration(),
    {
        &self.audio_channel_configuration
    }

    pub fn content_protection(&self) -> (r: &Option<Vec<ContentProtection>>)
        ensures
            *r == self.spec_content_protection(),
    {
        &self.content_protection
    }

    pub fn output_protection(&self) -> (r: &Option<Vec<Descriptor>>)
        ensures
            *r == self.spec_output_protection(),
    {
        &self.output_protection
    }

    pub fn essential_property(&self) -> (r: &Option<Vec<Descriptor>>)
        ensures
            *r == self.spec_essential_property(),
    {
        &self.essential_property
    }

    pub fn supplemental_property(&self) -> (r: &Option<Vec<Descriptor>>)
        ensures
            *r == self.spec_supplemental_property(),
    {
        &self.supplemental_property
    }

    pub fn inband_event_stream(&self) -> (r: &Option<Vec<EventStream>>)
        ensures
            *r == self.spec_inband_event_stream(),
    {
        &self.inband_event_stream
    }

    pub fn switching(&self) -> (r: &Option<Vec<Switching>>)
        ensures
            *r == self.spec_switching(),
    {
        &self.switching
    }

    pub fn random_access(&self) -> (r: &Option<Vec<RandomAccess>>)
        ensures
            *r == self.spec_random_access(),
    {
        &self.random_access
    }

    pub fn group_lavel(&self) -> (r: &Option<Vec<Label>>)
        ensures
            *r == self.spec_group_lavel(),
    {
        &self.group_lavel
    }

    pub fn lavel(&self) -> (r: &Option<Vec<Label>>)
        ensures
            *r == self.spec_lavel(),
    {
        &self.lavel
    }

    pub fn producer_reference_time(&self) -> (r: &Option<Vec<ProducerReferenceTime>>)
        ensures
            *r == self.spec_producer_reference_time(),
    {
        &self.producer_reference_time
    }

    pub fn content_popularity_rate(&self) -> (r: &Option<Vec<ContentPopularityRate>>)
        ensures
            *r == self.spec_content_popularity_rate(),
    {
        &self.content_popularity_rate
    }

    pub fn resync(&self) -> (r: &Option<Vec<Resync>>)
        ensures
            *r == self.spec_resync(),
    {
        &self.resync
    }

    pub fn base_url(&self) -> (r: &Option<Vec<BaseURL>>)
        ensures
            *r == self.spec_base_url(),
    {
        &self.base_url
    }

    pub fn extended_bandwidth(&self) -> (r: &Option<Vec<ExtendedBandwidth>>)
        ensures
            *r == self.spec_extended_bandwidth(),
    {
        &self.extended_bandwidth
    }

    pub fn sub_representation(&self) -> (r: &Option<Vec<SubRepresentation>>)
        ensures
            *r == self.spec_sub_representation(),
    {
        &self.sub_representation
    }

    pub fn segment_base(&self) -> (r: &Option<SegmentBase>)
        ensures
            *r == self.spec_segment_base(),
    {
        &self.segment_base
    }

    pub fn segment_list(&self) -> (r: &Option<SegmentList>)
        ensures
            *r == self.spec_segment_list(),
    {
        &self.segment_list
    }

    pub fn segment_template(&self) -> (r: &Option<SegmentTemplate>)
        ensures
            *r == self.spec_segment_template(),
    {
        &self.segment_template
    }
}

/// Accumulates the fields of a [`Representation`]; [`RepresentationBuilder::build`] checks them.
#[derive(Debug, Default, Clone)]
pub struct RepresentationBuilder {
    pub id: Option<NoWhitespace>,
    pub bandwidth: Option<u32>,
    pub quality_ranking: Option<u32>,
    pub dependency_id: Option<StringVector>,
    pub association_id: Option<StringVector>,
    pub association_type: Option<ListOfFourCC>,
    pub media_stream_structure_id: Option<StringVector>,
    pub profiles: Option<ListOfProfiles>,
    pub width: Option<u32>,
    pub height: Option<u32>,
    pub sar: Option<Ratio>,
    pub framerate: Option<FrameRate>,
    pub audio_sampling_rate: Option<AudioSamplingRate>,
    pub mime_type: Option<String>,
    pub segment_profiles: Option<ListOfFourCC>,
    pub codecs: Option<Codecs>,
    pub container_profiles: Option<ListOfFourCC>,
    pub maximum_sap_period: Option<XsDouble>,
    pub start_with_sap: Option<StreamAccessPoint>,
    pub max_playout_rate: Option<XsDouble>,
    pub coding_dependency: Option<bool>,
    pub scan_type: Option<VideoScan>,
    pub selection_priority: Option<u32>,
    pub tag: Option<Tag>,
    pub frame_packing: Option<Vec<Descriptor>>,
    pub audio_channel_configuration: Option<Vec<Descriptor>>,
    pub content_protection: Option<Vec<ContentProtection>>,
    pub output_protection: Option<Vec<Descriptor>>,
    pub essential_property: Option<Vec<Descriptor>>,
    pub supplemental_property: Option<Vec<Descriptor>>,
    pub inband_event_stream: Option<Vec<EventStream>>,
    pub switching: Option<Vec<Switching>>,
    pub random_access: Option<Vec<RandomAccess>>,
    pub group_lavel: Option<Vec<Label>>,
    pub lavel: Option<Vec<Label>>,
    pub producer_reference_time: Option<Vec<ProducerReferenceTime>>,
    pub content_popularity_rate: Option<Vec<ContentPopularityRate>>,
    pub resync: Option<Vec<Resync>>,
    pub base_url: Option<Vec<BaseURL>>,
    pub extended_bandwidth: Option<Vec<ExtendedBandwidth>>,
    pub sub_representation: Option<Vec<SubRepresentation>>,
    pub segment_base: Option<SegmentBase>,
    pub segment_list: Option<SegmentList>,
    pub segment_template: Option<SegmentTemplate>,
}

impl RepresentationBuilder {
    /// Whether the fields meet the rules of a [`Representation`].
    pub open spec fn meets_rules(&self) -> bool {
        self.first_broken_rule() is None
    }

    pub fn id(self, v: NoWhitespace) -> (r: Self)
        ensures
            r == (RepresentationBuilder { id: Some(v), ..self }),
    {
        RepresentationBuilder { id: Some(v), ..self }
    }

    pub fn bandwidth(self, v: u32) -> (r: Self)
        ensures
            r == (RepresentationBuilder { bandwidth: Some(v), ..self }),
    {
        RepresentationBuilder { bandwidth: Some(v), ..self }
    }

    pub fn quality_ranking(self, v: u32) -> (r: Self)
        ensures
            r == (RepresentationBuilder { quality_ranking: Some(v), ..self }),
    {
        RepresentationBuilder { quality_ranking: Some(v), ..self }
    }

    pub fn dependency_id(self, v: StringVector) -> (r: Self)
        ensures
            r == (RepresentationBuilder { dependency_id: Some(v), ..self }),
    {
        RepresentationBuilder { dependency_id: Some(v), ..self }
    }

    pub fn association_id(self, v: StringVector) -> (r: Self)
        ensures
            r == (RepresentationBuilder { association_id: Some(v), ..self }),
    {
        RepresentationBuilder { association_id: Some(v), ..self }
    }

    pub fn association_type(self, v: ListOfFourCC) -> (r: Self)
        ensures
            r == (RepresentationBuilder { association_type: Some(v), ..self }),
    {
        RepresentationBuilder { association_type: Some(v), ..self }
    }

    pub fn media_stream_structure_id(self, v: StringVector) -> (r: Self)
        ensures
            r == (RepresentationBuilder { media_stream_structure_id: Some(v), ..self }),
    {
        RepresentationBuilder { media_stream_structure_id: Some(v), ..self }
    }

    pub fn profiles(self, v: Vec<Profile>) -> (r: Self)
        ensures
            (r.profiles matches Some(x) && x.view() == v@.map_values(|p: Profile| p.view())),
            r == (RepresentationBuilder { profiles: r.profiles, ..self }),
    {
        RepresentationBuilder { profiles: Some(ListOfProfiles::from(v)), ..self }
    }

    pub fn width(self, v: u32) -> (r: Self)
        ensures
            r == (RepresentationBuilder { width: Some(v), ..self }),
    {
        RepresentationBuilder { width: Some(v), ..self }
    }

    pub fn height(self, v: u32) -> (r: Self)
        ensures
            r == (RepresentationBuilder { height: Some(v), ..self }),
    {
        RepresentationBuilder { height: Some(v), ..self }
    }

    pub fn sar(self, v: Ratio) -> (r: Self)
        ensures
            r == (RepresentationBuilder { sar: Some(v), ..self }),
    {
        RepresentationBuilder { sar: Some(v), ..self }
    }

    pub fn framerate(self, v: FrameRate) -> (r: Self)
        ensures
            r == (RepresentationBuilder { framerate: Some(v), ..self }),
    {
        RepresentationBuilder { framerate: Some(v), ..self }
    }

    pub fn audio_sampling_rate(self, v: AudioSamplingRate) -> (r: Self)
        ensures
            r == (RepresentationBuilder { audio_sampling_rate: Some(v), ..self }),
    {
        RepresentationBuilder { audio_sampling_rate: Some(v), ..self }
    }

    pub fn mime_type(self, v: &str) -> (r: Self)
        ensures
            (r.mime_type matches Some(x) && x@ == v@),
            r == (RepresentationBuilder { mime_type: r.mime_type, ..self }),
    {
        RepresentationBuilder { mime_type: Some(v.to_owned()), ..self }
    }

    pub fn segment_profiles(self, v: ListOfFourCC) -> (r: Self)
        ensures
            r == (RepresentationBuilder { segment_profiles: Some(v), ..self }),
    {
        RepresentationBuilder { segment_profiles: Some(v), ..self }
    }

    pub fn codecs(self, v: Codecs) -> (r: Self)
        ensures
            r == (RepresentationBuilder { codecs: Some(v), ..self }),
    {
        RepresentationBuilder { codecs: Some(v), ..self }
    }

    pub fn container_profiles(self, v: ListOfFourCC) -> (r: Self)
        ensures
            r == (RepresentationBuilder { container_profiles: Some(v), ..self }),
    {
        RepresentationBuilder { container_profiles: Some(v), ..self }
    }

    pub fn maximum_sap_period(self, v: XsDouble) -> (r: Self)
        ensures
            r == (RepresentationBuilder { maximum_sap_period: Some(v), ..self }),
    {
        RepresentationBuilder { maximum_sap_period: Some(v), ..self }
    }

    pub fn start_with_sap(self, v: StreamAccessPoint) -> (r: Self)
        ensures
            r == (RepresentationBuilder { start_with_sap: Some(v), ..self }),
    {
        RepresentationBuilder { start_with_sap: Some(v), ..self }
    }

    pub fn max_playout_rate(self, v: XsDouble) -> (r: Self)
        ensures
            r == (RepresentationBuilder { max_playout_rate: Some(v), ..self }),
    {
        RepresentationBuilder { max_playout_rate: Some(v), ..self }
    }

    pub fn coding_dependency(self, v: bool) -> (r: Self)
        ensures
            r == (RepresentationBuilder { coding_dependency: Some(v), ..self }),
    {
        RepresentationBuilder { coding_dependency: Some(v), ..self }
    }

    pub fn scan_type(self, v: VideoScan) -> (r: Self)
        ensures
            r == (RepresentationBuilder { scan_type: Some(v), ..self }),
    {
        RepresentationBuilder { scan_type: Some(v), ..self }
    }

    pub fn selection_priority(self, v: u32) -> (r: Self)
        ensures
            r == (RepresentationBuilder { selection_priority: Some(v), ..self }),
    {
        RepresentationBuilder { selection_priority: Some(v), ..self }
    }

    pub fn tag(self, v: &str) -> (r: Self)
        ensures
            (r.tag matches Some(x) && x.view() == v@),
            r == (RepresentationBuilder { tag: r.tag, ..self }),
    {
        RepresentationBuilder { tag: Some(Tag::from(v)), ..self }
    }

    pub fn frame_packing(self, v: Vec<Descriptor>) -> (r: Self)
        ensures
            r == (RepresentationBuilder { frame_packing: Some(v), ..self }),
    {
        RepresentationBuilder { frame_packing: Some(v), ..self }
    }

    pub fn audio_channel_configuration(self, v: Vec<Descriptor>) -> (r: Self)
        ensures
            r == (RepresentationBuilder { audio_channel_configuration: Some(v), ..self }),
    {
        RepresentationBuilder { audio_channel_configuration: Some(v), ..self }
    }

    pub fn content_protection(self, v: Vec<ContentProtection>) -> (r: Self)
        ensures
            r == (RepresentationBuilder { content_protection: Some(v), ..self }),
    {
        RepresentationBuilder { content_protection: Some(v), ..self }
    }

    pub fn output_protection(self, v: Vec<Descriptor>) -> (r: Self)
        ensures
            r == (RepresentationBuilder { output_protection: Some(v), ..self }),
    {
        RepresentationBuilder { output_protection: Some(v), ..self }
    }

    pub fn essential_property(self, v: Vec<Descriptor>) -> (r: Self)
        ensures
            r == (RepresentationBuilder { essential_property: Some(v), ..self }),
    {
        RepresentationBuilder { essential_property: Some(v), ..self }
    }

    pub fn supplemental_property(self, v: Vec<Descriptor>) -> (r: Self)
        ensures
            r == (RepresentationBuilder { supplemental_property: Some(v), ..self }),
    {
        RepresentationBuilder { supplemental_property: Some(v), ..self }
    }

    pub fn inband_event_stream(self, v: Vec<EventStream>) -> (r: Self)
        ensures
            r == (RepresentationBuilder { inband_event_stream: Some(v), ..self }),
    {
        RepresentationBuilder { inband_event_stream: Some(v), ..self }
    }

    pub fn switching(self, v: Vec<Switching>) -> (r: Self)
        ensures
            r == (RepresentationBuilder { switching: Some(v), ..self }),
    {
        RepresentationBuilder { switching: Some(v), ..self }
    }

    pub fn random_access(self, v: Vec<RandomAccess>) -> (r: Self)
        ensures
            r == (RepresentationBuilder { random_access: Some(v), ..self }),
    {
        RepresentationBuilder { random_access: Some(v), ..self }
    }

    pub fn group_lavel(self, v: Vec<Label>) -> (r: Self)
        ensures
            r == (RepresentationBuilder { group_lavel: Some(v), ..self }),
    {
        RepresentationBuilder { group_lavel: Some(v), ..self }
    }

    pub fn lavel(self, v: Vec<Label>) -> (r: Self)
        ensures
            r == (RepresentationBuilder { lavel: Some(v), ..self }),
    {
        RepresentationBuilder { lavel: Some(v), ..self }
    }

    pub fn producer_reference_time(self, v: Vec<ProducerReferenceTime>) -> (r: Self)
        ensures
            r == (RepresentationBuilder { producer_reference_time: Some(v), ..self }),
    {
        RepresentationBuilder { producer_reference_time: Some(v), ..self }
    }

    pub fn content_popularity_rate(self, v: Vec<ContentPopularityRate>) -> (r: Self)
        ensures
            r == (RepresentationBuilder { content_popularity_rate: Some(v), ..self }),
    {
        RepresentationBuilder { content_popularity_rate: Some(v), ..self }
    }

    pub fn resync(self, v: Vec<Resync>) -> (r: Self)
        ensures
            r == (RepresentationBuilder { resync: Some(v), ..self }),
    {
        RepresentationBuilder { resync: Some(v), ..self }
    }

    pub fn base_url(self, v: Vec<BaseURL>) -> (r: Self)
        ensures
            r == (RepresentationBuilder { base_url: Some(v), ..self }),
    {
        RepresentationBuilder { base_url: Some(v), ..self }
    }

    pub fn extended_bandwidth(self, v: Vec<ExtendedBandwidth>) -> (r: Self)
        ensures
            r == (RepresentationBuilder { extended_bandwidth: Some(v), ..self }),
    {
        RepresentationBuilder { extended_bandwidth: Some(v), ..self }
    }

    pub fn sub_representation(self, v: Vec<SubRepresentation>) -> (r: Self)
        ensures
            r == (RepresentationBuilder { sub_representation: Some(v), ..self }),
    {
        RepresentationBuilder { sub_representation: Some(v), ..self }
    }

    pub fn segment_base(self, v: SegmentBase) -> (r: Self)
        ensures
            r == (RepresentationBuilder { segment_base: Some(v), ..self }),
    {
        RepresentationBuilder { segment_base: Some(v), ..self }
    }

    pub fn segment_list(self, v: SegmentList) -> (r: Self)
        ensures
            r == (RepresentationBuilder { segment_list: Some(v), ..self }),
    {
        RepresentationBuilder { segment_list: Some(v), ..self }
    }

    pub fn segment_template(self, v: SegmentTemplate) -> (r: Self)
        ensures
            r == (RepresentationBuilder { segment_template: Some(v), ..self }),
    {
        RepresentationBuilder { segment_template: Some(v), ..self }
    }

    /// Checks the rules and makes the [`Representation`].
    pub fn build(self) -> (r: Result<Representation, MpdError>)
        ensures
            r is Ok <==> self.meets_rules(),
            self.first_broken_rule() matches Some(e) ==> r == Err::<Representation, MpdError>(e),
            r matches Ok(e) ==> self.id == Some(e.spec_id()),
            r matches Ok(e) ==> self.bandwidth == Some(e.spec_bandwidth()),
            r matches Ok(e) ==> e.spec_quality_ranking() == self.quality_ranking,
            r matches Ok(e) ==> e.spec_dependency_id() == self.dependency_id,
            r matches Ok(e) ==> e.spec_association_id() == self.association_id,
            r matches Ok(e) ==> e.spec_association_type() == self.association_type,
            r matches Ok(e) ==>
                e.spec_media_stream_structure_id() == self.media_stream_structure_id,
            r matches Ok(e) ==> e.spec_profiles() == self.profiles,
            r matches Ok(e) ==> e.spec_width() == self.width,
            r matches Ok(e) ==> e.spec_height() == self.height,
            r matches Ok(e) ==> e.spec_sar() == self.sar,
            r matches Ok(e) ==> e.spec_framerate() == self.framerate,
            r matches Ok(e) ==> e.spec_audio_sampling_rate() == self.audio_sampling_rate,
            r matches Ok(e) ==> e.spec_mime_type() == self.mime_type,
            r matches Ok(e) ==> e.spec_segment_profiles() == self.segment_profiles,
            r matches Ok(e) ==> e.spec_codecs() == self.codecs,
            r matches Ok(e) ==> e.spec_container_profiles() == self.container_profiles,
            r matches Ok(e) ==> e.spec_maximum_sap_period() == self.maximum_sap_period,
            r matches Ok(e) ==> e.spec_start_with_sap() == self.start_with_sap,
            r matches Ok(e) ==> e.spec_max_playout_rate() == self.max_playout_rate,
            r matches Ok(e) ==> e.spec_coding_dependency() == self.coding_dependency,
            r matches Ok(e) ==> e.spec_scan_type() == self.scan_type,
            r matches Ok(e) ==> e.spec_selection_priority() == self.selection_priority,
            r matches Ok(e) ==> e.spec_tag() == self.tag,
            r matches Ok(e) ==> e.spec_frame_packing() == self.frame_packing,
            r matches Ok(e) ==>
                e.spec_audio_channel_configuration() == self.audio_channel_configuration,
            r matches Ok(e) ==> e.spec_content_protection() == self.content_protection,
            r matches Ok(e) ==> e.spec_output_protection() == self.output_protection,
            r matches Ok(e) ==> e.spec_essential_property() == self.essential_property,
            r matches Ok(e) ==> e.spec_supplemental_property() == self.supplemental_property,
            r matches Ok(e) ==> e.spec_inband_event_stream() == self.inband_event_stream,
            r matches Ok(e) ==> e.spec_switching() == self.switching,
            r matches Ok(e) ==> e.spec_random_access() == self.random_access,
            r matches Ok(e) ==> e.spec_group_lavel() == self.group_lavel,
            r matches Ok(e) ==> e.spec_lavel() == self.lavel,
            r matches Ok(e) ==> e.spec_producer_reference_time() == self.producer_reference_time,
            r matches Ok(e) ==> e.spec_content_popularity_rate() == self.content_popularity_rate,
            r matches Ok(e) ==> e.spec_resync() == self.resync,
            r matches Ok(e) ==> e.spec_base_url() == self.base_url,
            r matches Ok(e) ==> e.spec_extended_bandwidth() == self.extended_bandwidth,
            r matches Ok(e) ==> e.spec_sub_representation() == self.sub_representation,
            r matches Ok(e) ==> e.spec_segment_base() == self.segment_base,
            r matches Ok(e) ==> e.spec_segment_list() == self.segment_list,
            r matches Ok(e) ==> e.spec_segment_template() == self.segment_template,
    {
        if let Err(e) = self.validate() {
            return Err(e);
        }
        let id = match self.id {
            Some(v) => v,
            None => return Err(MpdError::MissingRequiredField("id")),
        };
        let bandwidth = match self.bandwidth {
            Some(v) => v,
            None => return Err(MpdError::MissingRequiredField("bandwidth")),
        };
        Ok(Representation {
            id,
            bandwidth,
            quality_ranking: self.quality_ranking,
            dependency_id: self.dependency_id,
            association_id: self.association_id,
            association_type: self.association_type,
            media_stream_structure_id: self.media_stream_structure_id,
            profiles: self.profiles,
            width: self.width,
            height: self.height,
            sar: self.sar,
            framerate: self.framerate,
            audio_sampling_rate: self.audio_sampling_rate,
            mime_type: self.mime_type,
            segment_profiles: self.segment_profiles,
            codecs: self.codecs,
            container_profiles: self.container_profiles,
            maximum_sap_period: self.maximum_sap_period,
            start_with_sap: self.start_with_sap,
            max_playout_rate: self.max_playout_rate,
            coding_dependency: self.coding_dependency,
            scan_type: self.scan_type,
            selection_priority: self.selection_priority,
            tag: self.tag,
            frame_packing: self.frame_packing,
            audio_channel_configuration: self.audio_channel_configuration,
            content_protection: self.content_protection,
            output_protection: self.output_protection,
            essential_property: self.essential_property,
            supplemental_property: self.supplemental_property,
            inband_event_stream: self.inband_event_stream,
            switching: self.switching,
            random_access: self.random_access,
            group_lavel: self.group_lavel,
            lavel: self.lavel,
            producer_reference_time: self.producer_reference_time,
            content_popularity_rate: self.content_popularity_rate,
            resync: self.resync,
            base_url: self.base_url,
            extended_bandwidth: self.extended_bandwidth,
            sub_representation: self.sub_representation,
            segment_base: self.segment_base,
            segment_list: self.segment_list,
            segment_template: self.segment_template,
        })
    }
}

impl NeedValidater for RepresentationBuilder {
    open spec fn first_broken_rule(&self) -> Option<MpdError> {
        if self.id is None {
            Some(MpdError::MissingRequiredField("id"))
        } else if self.bandwidth is None {
            Some(MpdError::MissingRequiredField("bandwidth"))
        } else if (self.segment_base is Some && self.segment_list is Some) || (self.segment_base is Some && self.segment_template is Some) || (self.segment_list is Some && self.segment_template is Some) {
            Some(MpdError::InvalidFieldCombination("segment_base, segment_list, segment_template"))
        } else {
            None
        }
    }

    fn validate(&self) -> (r: Result<(), MpdError>) {
        if self.id.is_none() {
            return Err(MpdError::MissingRequiredField("id"));
        }
        if self.bandwidth.is_none() {
            return Err(MpdError::MissingRequiredField("bandwidth"));
        }
        if (self.segment_base.is_some() && self.segment_list.is_some()) || (self.segment_base.is_some() && self.segment_template.is_some()) || (self.segment_list.is_some() && self.segment_template.is_some()) {
            return Err(MpdError::InvalidFieldCombination("segment_base, segment_list, segment_template"));
        }
        Ok(())
    }
}

/// Sub-representation.
///
/// Built only through [`SubRepresentationBuilder`], which checks its rules.
#[derive(Debug, Clone, PartialEq, Eq)]
pub struct SubRepresentation {
    level: Option<u32>,
    dependency_level: Option<UIntVector>,
    bandwidth: Option<u32>,
    content_component: Option<StringVector>,
    profiles: Option<ListOfProfiles>,
    width: Option<u32>,
    height: Option<u32>,
    sar: Option<Ratio>,
    framerate: Option<FrameRate>,
    audio_sampling_rate: Option<AudioSamplingRate>,
    mime_type: Option<String>,
    segment_profiles: Option<ListOfFourCC>,
    codecs: Option<Codecs>,
    container_profiles: Option<ListOfFourCC>,
    maximum_sap_period: Option<XsDouble>,
    start_with_sap: Option<StreamAccessPoint>,
    max_playout_rate: Option<XsDouble>,
    coding_dependency: Option<bool>,
    scan_type: Option<VideoScan>,
    selection_priority: Option<u32>,
    tag: Option<Tag>,
    frame_packing: Option<Vec<Descriptor>>,
    audio_channel_configuration: Option<Vec<Descriptor>>,
    content_protection: Option<Vec<ContentProtection>>,
    output_protection: Option<Vec<Descriptor>>,
    essential_property: Option<Vec<Descriptor>>,
    supplemental_property: Option<Vec<Descriptor>>,
    inband_event_stream: Option<Vec<EventStream>>,
    switching: Option<Vec<Switching>>,
    random_access: Option<Vec<RandomAccess>>,
    group_lavel: Option<Vec<Label>>,
    lavel: Option<Vec<Label>>,
    producer_reference_time: Option<Vec<ProducerReferenceTime>>,
    content_popularity_rate: Option<Vec<ContentPopularityRate>>,
    resync: Option<Vec<Resync>>,
}

impl SubRepresentation {
    pub closed spec fn spec_level(&self) -> Option<u32> {
        self.level
    }

    pub closed spec fn spec_dependency_level(&self) -> Option<UIntVector> {
        self.dependency_level
    }

    pub closed spec fn spec_bandwidth(&self) -> Option<u32> {
        self.bandwidth
    }

    pub closed spec fn spec_content_component(&self) -> Option<StringVector> {
        self.content_component
    }

    pub closed spec fn spec_profiles(&self) -> Option<ListOfProfiles> {
        self.profiles
    }

    pub closed spec fn spec_width(&self) -> Option<u32> {
        self.width
    }

    pub closed spec fn spec_height(&self) -> Option<u32> {
        self.height
    }

    pub closed spec fn spec_sar(&self) -> Option<Ratio> {
        self.sar
    }

    pub closed spec fn spec_framerate(&self) -> Option<FrameRate> {
        self.framerate
    }

    pub closed spec fn spec_audio_sampling_rate(&self) -> Option<AudioSamplingRate> {
        self.audio_sampling_rate
    }

    pub closed spec fn spec_mime_type(&self) -> Option<String> {
        self.mime_type
    }

    pub closed spec fn spec_segment_profiles(&self) -> Option<ListOfFourCC> {
        self.segment_profiles
    }

    pub closed spec fn spec_codecs(&self) -> Option<Codecs> {
        self.codecs
    }

    pub closed spec fn spec_container_profiles(&self) -> Option<ListOfFourCC> {
        self.container_profiles
    }

    pub closed spec fn spec_maximum_sap_period(&self) -> Option<XsDouble> {
        self.maximum_sap_period
    }

    pub closed spec fn spec_start_with_sap(&self) -> Option<StreamAccessPoint> {
        self.start_with_sap
    }

    pub closed spec fn spec_max_playout_rate(&self) -> Option<XsDouble> {
        self.max_playout_rate
    }

    pub closed spec fn spec_coding_dependency(&self) -> Option<bool> {
        self.coding_dependency
    }

    pub closed spec fn spec_scan_type(&self) -> Option<VideoScan> {
        self.scan_type
    }

    pub closed spec fn spec_selection_priority(&self) -> Option<u32> {
        self.selection_priority
    }

    pub closed spec fn spec_tag(&self) -> Option<Tag> {
        self.tag
    }

    pub closed spec fn spec_frame_packing(&self) -> Option<Vec<Descriptor>> {
        self.frame_packing
    }

    pub closed spec fn spec_audio_channel_configuration(&self) -> Option<Vec<Descriptor>> {
        self.audio_channel_configuration
    }

    pub closed spec fn spec_content_protection(&self) -> Option<Vec<ContentProtection>> {
        self.content_protection
    }

    pub closed spec fn spec_output_protection(&self) -> Option<Vec<Descriptor>> {
        self.output_protection
    }

    pub closed spec fn spec_essential_property(&self) -> Option<Vec<Descriptor>> {
        self.essential_property
    }

    pub closed spec fn spec_supplemental_property(&self) -> Option<Vec<Descriptor>> {
        self.supplemental_property
    }

    pub closed spec fn spec_inband_event_stream(&self) -> Option<Vec<EventStream>> {
        self.inband_event_stream
    }

    pub closed spec fn spec_switching(&self) -> Option<Vec<Switching>> {
        self.switching
    }

    pub closed spec fn spec_random_access(&self) -> Option<Vec<RandomAccess>> {
        self.random_access
    }

    pub closed spec fn spec_group_lavel(&self) -> Option<Vec<Label>> {
        self.group_lavel
    }

    pub closed spec fn spec_lavel(&self) -> Option<Vec<Label>> {
        self.lavel
    }

    pub closed spec fn spec_producer_reference_time(&self) -> Option<Vec<ProducerReferenceTime>> {
        self.producer_reference_time
    }

    pub closed spec fn spec_content_popularity_rate(&self) -> Option<Vec<ContentPopularityRate>> {
        self.content_popularity_rate
    }

    pub closed spec fn spec_resync(&self) -> Option<Vec<Resync>> {
        self.resync
    }

    pub fn level(&self) -> (r: &Option<u32>)
        ensures
            *r == self.spec_level(),
    {
        &self.level
    }

    pub fn dependency_level(&self) -> (r: &Option<UIntVector>)
        ensures
            *r == self.spec_dependency_level(),
    {
        &self.dependency_level
    }

    pub fn bandwidth(&self) -> (r: &Option<u32>)
        ensures
            *r == self.spec_bandwidth(),
    {
        &self.bandwidth
    }

    pub fn content_component(&self) -> (r: &Option<StringVector>)
        ensures
            *r == self.spec_content_component(),
    {
        &self.content_component
    }

    pub fn profiles(&self) -> (r: &Option<ListOfProfiles>)
        ensures
            *r == self.spec_profiles(),
    {
        &self.profiles
    }

    pub fn width(&self) -> (r: &Option<u32>)
        ensures
            *r == self.spec_width(),
    {
        &self.width
    }

    pub fn height(&self) -> (r: &Option<u32>)
        ensures
            *r == self.spec_height(),
    {
        &self.height
    }

    pub fn sar(&self) -> (r: &Option<Ratio>)
        ensures
            *r == self.spec_sar(),
    {
        &self.sar
    }

    pub fn framerate(&self) -> (r: &Option<FrameRate>)
        ensures
            *r == self.spec_framerate(),
    {
        &self.framerate
    }

    pub fn audio_sampling_rate(&self) -> (r: &Option<AudioSamplingRate>)
        ensures
            *r == self.spec_audio_sampling_rate(),
    {
        &self.audio_sampling_rate
    }

    pub fn mime_type(&self) -> (r: &Option<String>)
        ensures
            *r == self.spec_mime_type(),
    {
        &self.mime_type
    }

    pub fn segment_profiles(&self) -> (r: &Option<ListOfFourCC>)
        ensures
            *r == self.spec_segment_profiles(),
    {
        &self.segment_profiles
    }

    pub fn codecs(&self) -> (r: &Option<Codecs>)
        ensures
            *r == self.spec_codecs(),
    {
        &self.codecs
    }

    pub fn container_profiles(&self) -> (r: &Option<ListOfFourCC>)
        ensures
            *r == self.spec_container_profiles(),
    {
        &self.container_profiles
    }

    pub fn maximum_sap_period(&self) -> (r: &Option<XsDouble>)
        ensures
            *r == self.spec_maximum_sap_period(),
    {
        &self.maximum_sap_period
    }

    pub fn start_with_sap(&self) -> (r: &Option<StreamAccessPoint>)
        ensures
            *r == self.spec_start_with_sap(),
    {
        &self.start_with_sap
    }

    pub fn max_playout_rate(&self) -> (r: &Option<XsDouble>)
        ensures
            *r == self.spec_max_playout_rate(),
    {
        &self.max_playout_rate
    }

    pub fn coding_dependency(&self) -> (r: &Option<bool>)
        ensures
            *r == self.spec_coding_dependency(),
    {
        &self.coding_dependency
    }

    pub fn scan_type(&self) -> (r: &Option<VideoScan>)
        ensures
            *r == self.spec_scan_type(),
    {
        &self.scan_type
    }

    pub fn selection_priority(&self) -> (r: &Option<u32>)
        ensures
            *r == self.spec_selection_priority(),
    {
        &self.selection_priority
    }

    pub fn tag(&self) -> (r: &Option<Tag>)
        ensures
            *r == self.spec_tag(),
    {
        &self.tag
    }

    pub fn frame_packing(&self) -> (r: &Option<Vec<Descriptor>>)
        ensures
            *r == self.spec_frame_packing(),
    {
        &self.frame_packing
    }

    pub fn audio_channel_configuration(&self) -> (r: &Option<Vec<Descriptor>>)
        ensures
            *r == self.spec_audio_channel_configuration(),
    {
        &self.audio_channel_configuration
    }

    pub fn content_protection(&self) -> (r: &Option<Vec<ContentProtection>>)
        ensures
            *r == self.spec_content_protection(),
    {
        &self.content_protection
    }

    pub fn output_protection(&self) -> (r: &Option<Vec<Descriptor>>)
        ensures
            *r == self.spec_output_protection(),
    {
        &self.output_protection
    }

    pub fn essential_property(&self) -> (r: &Option<Vec<Descriptor>>)
        ensures
            *r == self.spec_essential_property(),
    {
        &self.essential_property
    }

    pub fn supplemental_property(&self) -> (r: &Option<Vec<Descriptor>>)
        ensures
            *r == self.spec_supplemental_property(),
    {
        &self.supplemental_property
    }

    pub fn inband_event_stream(&self) -> (r: &Option<Vec<EventStream>>)
        ensures
            *r == self.spec_inband_event_stream(),
    {
        &self.inband_event_stream
    }

    pub fn switching(&self) -> (r: &Option<Vec<Switching>>)
        ensures
            *r == self.spec_switching(),
    {
        &self.switching
    }

    pub fn random_access(&self) -> (r: &Option<Vec<RandomAccess>>)
        ensures
            *r == self.spec_random_access(),
    {
        &self.random_access
    }

    pub fn group_lavel(&self) -> (r: &Option<Vec<Label>>)
        ensures
            *r == self.spec_group_lavel(),
    {
        &self.group_lavel
    }

    pub fn lavel(&self) -> (r: &Option<Vec<Label>>)
        ensures
            *r == self.spec_lavel(),
    {
        &self.lavel
    }

    pub fn producer_reference_time(&self) -> (r: &Option<Vec<ProducerReferenceTime>>)
        ensures
            *r == self.spec_producer_reference_time(),
    {
        &self.producer_reference_time
    }

    pub fn content_popularity_rate(&self) -> (r: &Option<Vec<ContentPopularityRate>>)
        ensures
            *r == self.spec_content_popularity_rate(),
    {
        &self.content_popularity_rate
    }

    pub fn resync(&self) -> (r: &Option<Vec<Resync>>)
        ensures
            *r == self.spec_resync(),
    {
        &self.resync
    }
}

/// Accumulates the fields of a [`SubRepresentation`]; [`SubRepresentationBuilder::build`] checks
/// them.
#[derive(Debug, Default, Clone)]
pub struct SubRepresentationBuilder {
    pub level: Option<u32>,
    pub dependency_level: Option<UIntVector>,
    pub bandwidth: Option<u32>,
    pub content_component: Option<StringVector>,
    pub profiles: Option<ListOfProfiles>,
    pub width: Option<u32>,
    pub height: Option<u32>,
    pub sar: Option<Ratio>,
    pub framerate: Option<FrameRate>,
    pub audio_sampling_rate: Option<AudioSamplingRate>,
    pub mime_type: Option<String>,
    pub segment_profiles: Option<ListOfFourCC>,
    pub codecs: Option<Codecs>,
    pub container_profiles: Option<ListOfFourCC>,
    pub maximum_sap_period: Option<XsDouble>,
    pub start_with_sap: Option<StreamAccessPoint>,
    pub max_playout_rate: Option<XsDouble>,
    pub coding_dependency: Option<bool>,
    pub scan_type: Option<VideoScan>,
    pub selection_priority: Option<u32>,
    pub tag: Option<Tag>,
    pub frame_packing: Option<Vec<Descriptor>>,
    pub audio_channel_configuration: Option<Vec<Descriptor>>,
    pub content_protection: Option<Vec<ContentProtection>>,
    pub output_protection: Option<Vec<Descriptor>>,
    pub essential_property: Option<Vec<Descriptor>>,
    pub supplemental_property: Option<Vec<Descriptor>>,
    pub inband_event_stream: Option<Vec<EventStream>>,
    pub switching: Option<Vec<Switching>>,
    pub random_access: Option<Vec<RandomAccess>>,
    pub group_lavel: Option<Vec<Label>>,
    pub lavel: Option<Vec<Label>>,
    pub producer_reference_time: Option<Vec<ProducerReferenceTime>>,
    pub content_popularity_rate: Option<Vec<ContentPopularityRate>>,
    pub resync: Option<Vec<Resync>>,
}

impl SubRepresentationBuilder {
    /// Whether the fields meet the rules of a [`SubRepresentation`].
    pub open spec fn meets_rules(&self) -> bool {
        self.first_broken_rule() is None
    }

    pub fn level(self, v: u32) -> (r: Self)
        ensures
            r == (SubRepresentationBuilder { level: Some(v), ..self }),
    {
        SubRepresentationBuilder { level: Some(v), ..self }
    }

    pub fn dependency_level(self, v: UIntVector) -> (r: Self)
        ensures
            r == (SubRepresentationBuilder { dependency_level: Some(v), ..self }),
    {
        SubRepresentationBuilder { dependency_level: Some(v), ..self }
    }

    pub fn bandwidth(self, v: u32) -> (r: Self)
        ensures
            r == (SubRepresentationBuilder { bandwidth: Some(v), ..self }),
    {
        SubRepresentationBuilder { bandwidth: Some(v), ..self }
    }

    pub fn content_component(self, v: StringVector) -> (r: Self)
        ensures
            r == (SubRepresentationBuilder { content_component: Some(v), ..self }),
    {
        SubRepresentationBuilder { content_component: Some(v), ..self }
    }

    pub fn profiles(self, v: Vec<Profile>) -> (r: Self)
        ensures
            (r.profiles matches Some(x) && x.view() == v@.map_values(|p: Profile| p.view())),
            r == (SubRepresentationBuilder { profiles: r.profiles, ..self }),
    {
        SubRepresentationBuilder { profiles: Some(ListOfProfiles::from(v)), ..self }
    }

    pub fn width(self, v: u32) -> (r: Self)
        ensures
            r == (SubRepresentationBuilder { width: Some(v), ..self }),
    {
        SubRepresentationBuilder { width: Some(v), ..self }
    }

    pub fn height(self, v: u32) -> (r: Self)
        ensures
            r == (SubRepresentationBuilder { height: Some(v), ..self }),
    {
        SubRepresentationBuilder { height: Some(v), ..self }
    }

    pub fn sar(self, v: Ratio) -> (r: Self)
        ensures
            r == (SubRepresentationBuilder { sar: Some(v), ..self }),
    {
        SubRepresentationBuilder { sar: Some(v), ..self }
    }

    pub fn framerate(self, v: FrameRate) -> (r: Self)
        ensures
            r == (SubRepresentationBuilder { framerate: Some(v), ..self }),
    {
        SubRepresentationBuilder { framerate: Some(v), ..self }
    }

    pub fn audio_sampling_rate(self, v: AudioSamplingRate) -> (r: Self)
        ensures
            r == (SubRepresentationBuilder { audio_sampling_rate: Some(v), ..self }),
    {
        SubRepresentationBuilder { audio_sampling_rate: Some(v), ..self }
    }

    pub fn mime_type(self, v: &str) -> (r: Self)
        ensures
            (r.mime_type matches Some(x) && x@ == v@),
            r == (SubRepresentationBuilder { mime_type: r.mime_type, ..self }),
    {
        SubRepresentationBuilder { mime_type: Some(v.to_owned()), ..self }
    }

    pub fn segment_profiles(self, v: ListOfFourCC) -> (r: Self)
        ensures
            r == (SubRepresentationBuilder { segment_profiles: Some(v), ..self }),
    {
        SubRepresentationBuilder { segment_profiles: Some(v), ..self }
    }

    pub fn codecs(self, v: Codecs) -> (r: Self)
        ensures
            r == (SubRepresentationBuilder { codecs: Some(v), ..self }),
    {
        SubRepresentationBuilder { codecs: Some(v), ..self }
    }

    pub fn container_profiles(self, v: ListOfFourCC) -> (r: Self)
        ensures
            r == (SubRepresentationBuilder { container_profiles: Some(v), ..self }),
    {
        SubRepresentationBuilder { container_profiles: Some(v), ..self }
    }

    pub fn maximum_sap_period(self, v: XsDouble) -> (r: Self)
        ensures
            r == (SubRepresentationBuilder { maximum_sap_period: Some(v), ..self }),
    {
        SubRepresentationBuilder { maximum_sap_period: Some(v), ..self }
    }

    pub fn start_with_sap(self, v: StreamAccessPoint) -> (r: Self)
        ensures
            r == (SubRepresentationBuilder { start_with_sap: Some(v), ..self }),
    {
        SubRepresentationBuilder { start_with_sap: Some(v), ..self }
    }

    pub fn max_playout_rate(self, v: XsDouble) -> (r: Self)
        ensures
            r == (SubRepresentationBuilder { max_playout_rate: Some(v), ..self }),
    {
        SubRepresentationBuilder { max_playout_rate: Some(v), ..self }
    }

    pub fn coding_dependency(self, v: bool) -> (r: Self)
        ensures
            r == (SubRepresentationBuilder { coding_dependency: Some(v), ..self }),
    {
        SubRepresentationBuilder { coding_dependency: Some(v), ..self }
    }

    pub fn scan_type(self, v: VideoScan) -> (r: Self)
        ensures
            r == (SubRepresentationBuilder { scan_type: Some(v), ..self }),
    {
        SubRepresentationBuilder { scan_type: Some(v), ..self }
    }

    pub fn selection_priority(self, v: u32) -> (r: Self)
        ensures
            r == (SubRepresentationBuilder { selection_priority: Some(v), ..self }),
    {
        SubRepresentationBuilder { selection_priority: Some(v), ..self }
    }

    pub fn tag(self, v: &str) -> (r: Self)
        ensures
            (r.tag matches Some(x) && x.view() == v@),
            r == (SubRepresentationBuilder { tag: r.tag, ..self }),
    {
        SubRepresentationBuilder { tag: Some(Tag::from(v)), ..self }
    }

    pub fn frame_packing(self, v: Vec<Descriptor>) -> (r: Self)
        ensures
            r == (SubRepresentationBuilder { frame_packing: Some(v), ..self }),
    {
        SubRepresentationBuilder { frame_packing: Some(v), ..self }
    }

    pub fn audio_channel_configuration(self, v: Vec<Descriptor>) -> (r: Self)
        ensures
            r == (SubRepresentationBuilder { audio_channel_configuration: Some(v), ..self }),
    {
        SubRepresentationBuilder { audio_channel_configuration: Some(v), ..self }
    }

    pub fn content_protection(self, v: Vec<ContentProtection>) -> (r: Self)
        ensures
            r == (SubRepresentationBuilder { content_protection: Some(v), ..self }),
    {
        SubRepresentationBuilder { content_protection: Some(v), ..self }
    }

    pub fn output_protection(self, v: Vec<Descriptor>) -> (r: Self)
        ensures
            r == (SubRepresentationBuilder { output_protection: Some(v), ..self }),
    {
        SubRepresentationBuilder { output_protection: Some(v), ..self }
    }

    pub fn essential_property(self, v: Vec<Descriptor>) -> (r: Self)
        ensures
            r == (SubRepresentationBuilder { essential_property: Some(v), ..self }),
    {
        SubRepresentationBuilder { essential_property: Some(v), ..self }
    }

    pub fn supplemental_property(self, v: Vec<Descriptor>) -> (r: Self)
        ensures
            r == (SubRepresentationBuilder { supplemental_property: Some(v), ..self }),
    {
        SubRepresentationBuilder { supplemental_property: Some(v), ..self }
    }

    pub fn inband_event_stream(self, v: Vec<EventStream>) -> (r: Self)
        ensures
            r == (SubRepresentationBuilder { inband_event_stream: Some(v), ..self }),
    {
        SubRepresentationBuilder { inband_event_stream: Some(v), ..self }
    }

    pub fn switching(self, v: Vec<Switching>) -> (r: Self)
        ensures
            r == (SubRepresentationBuilder { switching: Some(v), ..self }),
    {
        SubRepresentationBuilder { switching: Some(v), ..self }
    }

    pub fn random_access(self, v: Vec<RandomAccess>) -> (r: Self)
        ensures
            r == (SubRepresentationBuilder { random_access: Some(v), ..self }),
    {
        SubRepresentationBuilder { random_access: Some(v), ..self }
    }

    pub fn group_lavel(self, v: Vec<Label>) -> (r: Self)
        ensures
            r == (SubRepresentationBuilder { group_lavel: Some(v), ..self }),
    {
        SubRepresentationBuilder { group_lavel: Some(v), ..self }
    }

    pub fn lavel(self, v: Vec<Label>) -> (r: Self)
        ensures
            r == (SubRepresentationBuilder { lavel: Some(v), ..self }),
    {
        SubRepresentationBuilder { lavel: Some(v), ..self }
    }

    pub fn producer_reference_time(self, v: Vec<ProducerReferenceTime>) -> (r: Self)
        ensures
            r == (SubRepresentationBuilder { producer_reference_time: Some(v), ..self }),
    {
        SubRepresentationBuilder { producer_reference_time: Some(v), ..self }
    }

    pub fn content_popularity_rate(self, v: Vec<ContentPopularityRate>) -> (r: Self)
        ensures
            r == (SubRepresentationBuilder { content_popularity_rate: Some(v), ..self }),
    {
        SubRepresentationBuilder { content_popularity_rate: Some(v), ..self }
    }

    pub fn resync(self, v: Vec<Resync>) -> (r: Self)
        ensures
            r == (SubRepresentationBuilder { resync: Some(v), ..self }),
    {
        SubRepresentationBuilder { resync: Some(v), ..self }
    }

    /// Checks the rules and makes the [`SubRepresentation`].
    pub fn build(self) -> (r: Result<SubRepresentation, MpdError>)
        ensures
            r is Ok <==> self.meets_rules(),
            self.first_broken_rule() matches Some(e) ==> r == Err::<SubRepresentation, MpdError>(e),
            r matches Ok(e) ==> e.spec_level() == self.level,
            r matches Ok(e) ==> e.spec_dependency_level() == self.dependency_level,
            r matches Ok(e) ==> e.spec_bandwidth() == self.bandwidth,
            r matches Ok(e) ==> e.spec_content_component() == self.content_component,
            r matches Ok(e) ==> e.spec_profiles() == self.profiles,
            r matches Ok(e) ==> e.spec_width() == self.width,
            r matches Ok(e) ==> e.spec_height() == self.height,
            r matches Ok(e) ==> e.spec_sar() == self.sar,
            r matches Ok(e) ==> e.spec_framerate() == self.framerate,
            r matches Ok(e) ==> e.spec_audio_sampling_rate() == self.audio_sampling_rate,
            r matches Ok(e) ==> e.spec_mime_type() == self.mime_type,
            r matches Ok(e) ==> e.spec_segment_profiles() == self.segment_profiles,
            r matches Ok(e) ==> e.spec_codecs() == self.codecs,
            r matches Ok(e) ==> e.spec_container_profiles() == self.container_profiles,
            r matches Ok(e) ==> e.spec_maximum_sap_period() == self.maximum_sap_period,
            r matches Ok(e) ==> e.spec_start_with_sap() == self.start_with_sap,
            r matches Ok(e) ==> e.spec_max_playout_rate() == self.max_playout_rate,
            r matches Ok(e) ==> e.spec_coding_dependency() == self.coding_dependency,
            r matches Ok(e) ==> e.spec_scan_type() == self.scan_type,
            r matches Ok(e) ==> e.spec_selection_priority() == self.selection_priority,
            r matches Ok(e) ==> e.spec_tag() == self.tag,
            r matches Ok(e) ==> e.spec_frame_packing() == self.frame_packing,
            r matches Ok(e) ==>
                e.spec_audio_channel_configuration() == self.audio_channel_configuration,
            r matches Ok(e) ==> e.spec_content_protection() == self.content_protection,
            r matches Ok(e) ==> e.spec_output_protection() == self.output_protection,
            r matches Ok(e) ==> e.spec_essential_property() == self.essential_property,
            r matches Ok(e) ==> e.spec_supplemental_property() == self.supplemental_property,
            r matches Ok(e) ==> e.spec_inband_event_stream() == self.inband_event_stream,
            r matches Ok(e) ==> e.spec_switching() == self.switching,
            r matches Ok(e) ==> e.spec_random_access() == self.random_access,
            r matches Ok(e) ==> e.spec_group_lavel() == self.group_lavel,
            r matches Ok(e) ==> e.spec_lavel() == self.lavel,
            r matches Ok(e) ==> e.spec_producer_reference_time() == self.producer_reference_time,
            r matches Ok(e) ==> e.spec_content_popularity_rate() == self.content_popularity_rate,
            r matches Ok(e) ==> e.spec_resync() == self.resync,
    {
        if let Err(e) = self.validate() {
            return Err(e);
        }
        Ok(SubRepresentation {
            level: self.level,
            dependency_level: self.dependency_level,
            bandwidth: self.bandwidth,
            content_component: self.content_component,
            profiles: self.profiles,
            width: self.width,
            height: self.height,
            sar: self.sar,
            framerate: self.framerate,
            audio_sampling_rate: self.audio_sampling_rate,
            mime_type: self.mime_type,
            segment_profiles: self.segment_profiles,
            codecs: self.codecs,
            container_profiles: self.container_profiles,
            maximum_sap_period: self.maximum_sap_period,
            start_with_sap: self.start_with_sap,
            max_playout_rate: self.max_playout_rate,
            coding_dependency: self.coding_dependency,
            scan_type: self.scan_type,
            selection_priority: self.selection_priority,
            tag: self.tag,
            frame_packing: self.frame_packing,
            audio_channel_configuration: self.audio_channel_configuration,
            content_protection: self.content_protection,
            output_protection: self.output_protection,
            essential_property: self.essential_property,
            supplemental_property: self.supplemental_property,
            inband_event_stream: self.inband_event_stream,
            switching: self.switching,
            random_access: self.random_access,
            group_lavel: self.group_lavel,
            lavel: self.lavel,
            producer_reference_time: self.producer_reference_time,
            content_popularity_rate: self.content_popularity_rate,
            resync: self.resync,
        })
    }
}

impl NeedValidater for SubRepresentationBuilder {
    open spec fn first_broken_rule(&self) -> Option<MpdError> {
        if self.level is Some && self.bandwidth is None {
            Some(MpdError::MissingRequiredField("bandwidth"))
        } else {
            None
        }
    }

    fn validate(&self) -> (r: Result<(), MpdError>) {
        if self.level.is_some() && self.bandwidth.is_none() {
            return Err(MpdError::MissingRequiredField("bandwidth"));
        }
        Ok(())
    }
}

} // verus!
