use vstd::prelude::*;

use crate::codecs::Codecs;
use crate::definition::{ListOfProfiles, Profile};
use crate::element::{
    BaseURL, ContentComponent, ContentPopularityRate, ContentProtection, Descriptor, EventStream,
    Label, NeedValidater, ProducerReferenceTime, RandomAccess, Resync, Switching,
};
use crate::element::repr::Representation;
use crate::element::segment::{SegmentBase, SegmentList, SegmentTemplate};
use crate::enums::{ContentType, VideoScan, XLinkActure};
use crate::error::MpdError;
use crate::lists::{AudioSamplingRate, ListOfFourCC, UIntVector};
use crate::ratio::{FrameRate, Ratio};
use crate::types::{StreamAccessPoint, Tag, XsAnyURI, XsDouble, XsLanguage};

verus! {


/// Adaptation set.
///
/// Built only through [`AdaptationSetBuilder`], which checks its rules.
#[derive(Debug, Clone, PartialEq, Eq)]
pub struct AdaptationSet {
    href: Option<String>,
    actuate: Option<XLinkActure>,
    id: Option<u32>,
    group: Option<u32>,
    profiles: Option<ListOfProfiles>,
    width: Option<u32>,
    height: Option<u32>,
    sar: Option<Ratio>,
    framerate: Option<FrameRate>,
    audio_sampling_rate: Option<AudioSamplingRate>,
    mime_type: Option<String>,
    segment_profiles: Option<ListOfFourCC>,
    codecs: Option<Codecs>,
    container_profiles: Option<ListOfFourCC>,
    maximum_sap_period: Option<XsDouble>,
    start_with_sap: Option<StreamAccessPoint>,
    max_playout_rate: Option<XsDouble>,
    coding_dependency: Option<bool>,
    scan_type: Option<VideoScan>,
    selection_priority: Option<u32>,
    tag: Option<Tag>,
    frame_packing: Option<Vec<Descriptor>>,
    audio_channel_configuration: Option<Vec<Descriptor>>,
    content_protection: Option<Vec<ContentProtection>>,
    output_protection: Option<Vec<Descriptor>>,
    essential_property: Option<Vec<Descriptor>>,
    supplemental_property: Option<Vec<Descriptor>>,
    inband_event_stream: Option<Vec<EventStream>>,
    switching: Option<Vec<Switching>>,
    random_access: Option<Vec<RandomAccess>>,
    group_lavel: Option<Vec<Label>>,
    lavel: Option<Vec<Label>>,
    producer_reference_time: Option<Vec<ProducerReferenceTime>>,
    content_popularity_rate: Option<Vec<ContentPopularityRate>>,
    resync: Option<Vec<Resync>>,
    lang: Option<XsLanguage>,
    content_type: Option<ContentType>,
    par: Option<Ratio>,
    min_bandwidth: Option<u32>,
    max_bandwidth: Option<u32>,
    min_width: Option<u32>,
    max_width: Option<u32>,
    min_height: Option<u32>,
    max_height: Option<u32>,
    min_framerate: Option<FrameRate>,
    max_framerate: Option<FrameRate>,
    segment_alignment: Option<bool>,
    bitstream_switching: Option<bool>,
    subsegment_alignment: Option<bool>,
    subsegment_starts_with_sap: Option<StreamAccessPoint>,
    initialization_set_ref: Option<UIntVector>,
    initialization_principal: Option<XsAnyURI>,
    accessibility: Option<Vec<Descriptor>>,
    role: Option<Vec<Descriptor>>,
    rating: Option<Vec<Descriptor>>,
    viewpoint: Option<Vec<Descriptor>>,
    content_component: Option<Vec<ContentComponent>>,
    base_url: Option<Vec<BaseURL>>,
    segment_base: Option<SegmentBase>,
    segment_list: Option<SegmentList>,
    segment_template: Option<SegmentTemplate>,
    representation: Option<Vec<Representation>>,
}

impl AdaptationSet {
    pub closed spec fn spec_href(&self) -> Option<String> {
        self.href
    }

    pub closed spec fn spec_actuate(&self) -> Option<XLinkActure> {
        self.actuate
    }

    pub closed spec fn spec_id(&self) -> Option<u32> {
        self.id
    }

    pub closed spec fn spec_group(&self) -> Option<u32> {
        self.group
    }

    pub closed spec fn spec_profiles(&self) -> Option<ListOfProfiles> {
        self.profiles
    }

    pub closed spec fn spec_width(&self) -> Option<u32> {
        self.width
    }

    pub closed spec fn spec_height(&self) -> Option<u32> {
        self.height
    }

    pub closed spec fn spec_sar(&self) -> Option<Ratio> {
        self.sar
    }

    pub closed spec fn spec_framerate(&self) -> Option<FrameRate> {
        self.framerate
    }

    pub closed spec fn spec_audio_sampling_rate(&self) -> Option<AudioSamplingRate> {
        self.audio_sampling_rate
    }

    pub closed spec fn spec_mime_type(&self) -> Option<String> {
        self.mime_type
    }

    pub closed spec fn spec_segment_profiles(&self) -> Option<ListOfFourCC> {
        self.segment_profiles
    }

    pub closed spec fn spec_codecs(&self) -> Option<Codecs> {
        self.codecs
    }

    pub closed spec fn spec_container_profiles(&self) -> Option<ListOfFourCC> {
        self.container_profiles
    }

    pub closed spec fn spec_maximum_sap_period(&self) -> Option<XsDouble> {
        self.maximum_sap_period
    }

    pub closed spec fn spec_start_with_sap(&self) -> Option<StreamAccessPoint> {
        self.start_with_sap
    }

    pub closed spec fn spec_max_playout_rate(&self) -> Option<XsDouble> {
        self.max_playout_rate
    }

    pub closed spec fn spec_coding_dependency(&self) -> Option<bool> {
        self.coding_dependency
    }

    pub closed spec fn spec_scan_type(&self) -> Option<VideoScan> {
        self.scan_type
    }

    pub closed spec fn spec_selection_priority(&self) -> Option<u32> {
        self.selection_priority
    }

    pub closed spec fn spec_tag(&self) -> Option<Tag> {
        self.tag
    }

    pub closed spec fn spec_frame_packing(&self) -> Option<Vec<Descriptor>> {
        self.frame_packing
    }

    pub closed spec fn spec_audio_channel_configuration(&self) -> Option<Vec<Descriptor>> {
        self.audio_channel_configuration
    }

    pub closed spec fn spec_content_protection(&self) -> Option<Vec<ContentProtection>> {
        self.content_protection
    }

    pub closed spec fn spec_output_protection(&self) -> Option<Vec<Descriptor>> {
        self.output_protection
    }

    pub closed spec fn spec_essential_property(&self) -> Option<Vec<Descriptor>> {
        self.essential_property
    }

    pub closed spec fn spec_supplemental_property(&self) -> Option<Vec<Descriptor>> {
        self.supplemental_property
    }

    pub closed spec fn spec_inband_event_stream(&self) -> Option<Vec<EventStream>> {
        self.inband_event_stream
    }

    pub closed spec fn spec_switching(&self) -> Option<Vec<Switching>> {
        self.switching
    }

    pub closed spec fn spec_random_access(&self) -> Option<Vec<RandomAccess>> {
        self.random_access
    }

    pub closed spec fn spec_group_lavel(&self) -> Option<Vec<Label>> {
        self.group_lavel
    }

    pub closed spec fn spec_lavel(&self) -> Option<Vec<Label>> {
        self.lavel
    }

    pub closed spec fn spec_producer_reference_time(&self) -> Option<Vec<ProducerReferenceTime>> {
        self.producer_reference_time
    }

    pub closed spec fn spec_content_popularity_rate(&self) -> Option<Vec<ContentPopularityRate>> {
        self.content_popularity_rate
    }

    pub closed spec fn spec_resync(&self) -> Option<Vec<Resync>> {
        self.resync
    }

    pub closed spec fn spec_lang(&self) -> Option<XsLanguage> {
        self.lang
    }

    pub closed spec fn spec_content_type(&self) -> Option<ContentType> {
        self.content_type
    }

    pub closed spec fn spec_par(&self) -> Option<Ratio> {
        self.par
    }

    pub closed spec fn spec_min_bandwidth(&self) -> Option<u32> {
        self.min_bandwidth
    }

    pub closed spec fn spec_max_bandwidth(&self) -> Option<u32> {
        self.max_bandwidth
    }

    pub closed spec fn spec_min_width(&self) -> Option<u32> {
        self.min_width
    }

    pub closed spec fn spec_max_width(&self) -> Option<u32> {
        self.max_width
    }

    pub closed spec fn spec_min_height(&self) -> Option<u32> {
        self.min_height
    }

    pub closed spec fn spec_max_height(&self) -> Option<u32> {
        self.max_height
    }

    pub closed spec fn spec_min_framerate(&self) -> Option<FrameRate> {
        self.min_framerate
    }

    pub closed spec fn spec_max_framerate(&self) -> Option<FrameRate> {
        self.max_framerate
    }

    pub closed spec fn spec_segment_alignment(&self) -> Option<bool> {
        self.segment_alignment
    }

    pub closed spec fn spec_bitstream_switching(&self) -> Option<bool> {
        self.bitstream_switching
    }

    pub closed spec fn spec_subsegment_alignment(&self) -> Option<bool> {
        self.subsegment_alignment
    }

    pub closed spec fn spec_subsegment_starts_with_sap(&self) -> Option<StreamAccessPoint> {
        self.subsegment_starts_with_sap
    }

    pub closed spec fn spec_initialization_set_ref(&self) -> Option<UIntVector> {
        self.initialization_set_ref
    }

    pub closed spec fn spec_initialization_principal(&self) -> Option<XsAnyURI> {
        self.initialization_principal
    }

    pub closed spec fn spec_accessibility(&self) -> Option<Vec<Descriptor>> {
        self.accessibility
    }

    pub closed spec fn spec_role(&self) -> Option<Vec<Descriptor>> {
        self.role
    }

    pub closed spec fn spec_rating(&self) -> Option<Vec<Descriptor>> {
        self.rating
    }

    pub closed spec fn spec_viewpoint(&self) -> Option<Vec<Descriptor>> {
        self.viewpoint
    }

    pub closed spec fn spec_content_component(&self) -> Option<Vec<ContentComponent>> {
        self.content_component
    }

    pub closed spec fn spec_base_url(&self) -> Option<Vec<BaseURL>> {
        self.base_url
    }

    pub closed spec fn spec_segment_base(&self) -> Option<SegmentBase> {
        self.segment_base
    }

    pub closed spec fn spec_segment_list(&self) -> Option<SegmentList> {
        self.segment_list
    }

    pub closed spec fn spec_segment_template(&self) -> Option<SegmentTemplate> {
        self.segment_template
    }

    pub closed spec fn spec_representation(&self) -> Option<Vec<Representation>> {
        self.representation
    }

    pub fn href(&self) -> (r: &Option<String>)
        ensures
            *r == self.spec_href(),
    {
        &self.href
    }

    pub fn actuate(&self) -> (r: &Option<XLinkActure>)
        ensures
            *r == self.spec_actuate(),
    {
        &self.actuate
    }

    pub fn id(&self) -> (r: &Option<u32>)
        ensures
            *r == self.spec_id(),
    {
        &self.id
    }

    pub fn group(&self) -> (r: &Option<u32>)
        ensures
            *r == self.spec_group(),
    {
        &self.group
    }

    pub fn profiles(&self) -> (r: &Option<ListOfProfiles>)
        ensures
            *r == self.spec_profiles(),
    {
        &self.profiles
    }

    pub fn width(&self) -> (r: &Option<u32>)
        ensures
            *r == self.spec_width(),
    {
        &self.width
    }

    pub fn height(&self) -> (r: &Option<u32>)
        ensures
            *r == self.spec_height(),
    {
        &self.height
    }

    pub fn sar(&self) -> (r: &Option<Ratio>)
        ensures
            *r == self.spec_sar(),
    {
        &self.sar
    }

    pub fn framerate(&self) -> (r: &Option<FrameRate>)
        ensures
            *r == self.spec_framerate(),
    {
        &self.framerate
    }

    pub fn audio_sampling_rate(&self) -> (r: &Option<AudioSamplingRate>)
        ensures
            *r == self.spec_audio_sampling_rate(),
    {
        &self.audio_sampling_rate
    }

    pub fn mime_type(&self) -> (r: &Option<String>)
        ensures
            *r == self.spec_mime_type(),
    {
        &self.mime_type
    }

    pub fn segment_profiles(&self) -> (r: &Option<ListOfFourCC>)
        ensures
            *r == self.spec_segment_profiles(),
    {
        &self.segment_profiles
    }

    pub fn codecs(&self) -> (r: &Option<Codecs>)
        ensures
            *r == self.spec_codecs(),
    {
        &self.codecs
    }

    pub fn container_profiles(&self) -> (r: &Option<ListOfFourCC>)
        ensures
            *r == self.spec_container_profiles(),
    {
        &self.container_profiles
    }

    pub fn maximum_sap_period(&self) -> (r: &Option<XsDouble>)
        ensures
            *r == self.spec_maximum_sap_period(),
    {
        &self.maximum_sap_period
    }

    pub fn start_with_sap(&self) -> (r: &Option<StreamAccessPoint>)
        ensures
            *r == self.spec_start_with_sap(),
    {
        &self.start_with_sap
    }

    pub fn max_playout_rate(&self) -> (r: &Option<XsDouble>)
        ensures
            *r == self.spec_max_playout_rate(),
    {
        &self.max_playout_rate
    }

    pub fn coding_dependency(&self) -> (r: &Option<bool>)
        ensures
            *r == self.spec_coding_dependency(),
    {
        &self.coding_dependency
    }

    pub fn scan_type(&self) -> (r: &Option<VideoScan>)
        ensures
            *r == self.spec_scan_type(),
    {
        &self.scan_type
    }

    pub fn selection_priority(&self) -> (r: &Option<u32>)
        ensures
            *r == self.spec_selection_priority(),
    {
        &self.selection_priority
    }

    pub fn tag(&self) -> (r: &Option<Tag>)
        ensures
            *r == self.spec_tag(),
    {
        &self.tag
    }

    pub fn frame_packing(&self) -> (r: &Option<Vec<Descriptor>>)
        ensures
            *r == self.spec_frame_packing(),
    {
        &self.frame_packing
    }

    pub fn audio_channel_configuration(&self) -> (r: &Option<Vec<Descriptor>>)
        ensures
            *r == self.spec_audio_channel_configuration(),
    {
        &self.audio_channel_configuration
    }

    pub fn content_protection(&self) -> (r: &Option<Vec<ContentProtection>>)
        ensures
            *r == self.spec_content_protection(),
    {
        &self.content_protection
    }

    pub fn output_protection(&self) -> (r: &Option<Vec<Descriptor>>)
        ensures
            *r == self.spec_output_protection(),
    {
        &self.output_protection
    }

    pub fn essential_property(&self) -> (r: &Option<Vec<Descriptor>>)
        ensures
            *r == self.spec_essential_property(),
    {
        &self.essential_property
    }

    pub fn supplemental_property(&self) -> (r: &Option<Vec<Descriptor>>)
        ensures
            *r == self.spec_supplemental_property(),
    {
        &self.supplemental_property
    }

    pub fn inband_event_stream(&self) -> (r: &Option<Vec<EventStream>>)
        ensures
            *r == self.spec_inband_event_stream(),
    {
        &self.inband_event_stream
    }

    pub fn switching(&self) -> (r: &Option<Vec<Switching>>)
        ensures
            *r == self.spec_switching(),
    {
        &self.switching
    }

    pub fn random_access(&self) -> (r: &Option<Vec<RandomAccess>>)
        ensures
            *r == self.spec_random_access(),
    {
        &self.random_access
    }

    pub fn group_lavel(&self) -> (r: &Option<Vec<Label>>)
        ensures
            *r == self.spec_group_lavel(),
    {
        &self.group_lavel
    }

    pub fn lavel(&self) -> (r: &Option<Vec<Label>>)
        ensures
            *r == self.spec_lavel(),
    {
        &self.lavel
    }

    pub fn producer_reference_time(&self) -> (r: &Option<Vec<ProducerReferenceTime>>)
        ensures
            *r == self.spec_producer_reference_time(),
    {
        &self.producer_reference_time
    }

    pub fn content_popularity_rate(&self) -> (r: &Option<Vec<ContentPopularityRate>>)
        ensures
            *r == self.spec_content_popularity_rate(),
    {
        &self.content_popularity_rate
    }

    pub fn resync(&self) -> (r: &Option<Vec<Resync>>)
        ensures
            *r == self.spec_resync(),
    {
        &self.resync
    }

    pub fn lang(&self) -> (r: &Option<XsLanguage>)
        ensures
            *r == self.spec_lang(),
    {
        &self.lang
    }

    pub fn content_type(&self) -> (r: &Option<ContentType>)
        ensures
            *r == self.spec_content_type(),
    {
        &self.content_type
    }

    pub fn par(&self) -> (r: &Option<Ratio>)
        ensures
            *r == self.spec_par(),
    {
        &self.par
    }

    pub fn min_bandwidth(&self) -> (r: &Option<u32>)
        ensures
            *r == self.spec_min_bandwidth(),
    {
        &self.min_bandwidth
    }

    pub fn max_bandwidth(&self) -> (r: &Option<u32>)
        ensures
            *r == self.spec_max_bandwidth(),
    {
        &self.max_bandwidth
    }

    pub fn min_width(&self) -> (r: &Option<u32>)
        ensures
            *r == self.spec_min_width(),
    {
        &self.min_width
    }

    pub fn max_width(&self) -> (r: &Option<u32>)
        ensures
            *r == self.spec_max_width(),
    {
        &self.max_width
    }

    pub fn min_height(&self) -> (r: &Option<u32>)
        ensures
            *r == self.spec_min_height(),
    {
        &self.min_height
    }

    pub fn max_height(&self) -> (r: &Option<u32>)
        ensures
            *r == self.spec_max_height(),
    {
        &self.max_height
    }

    pub fn min_framerate(&self) -> (r: &Option<FrameRate>)
        ensures
            *r == self.spec_min_framerate(),
    {
        &self.min_framerate
    }

    pub fn max_framerate(&self) -> (r: &Option<FrameRate>)
        ensures
            *r == self.spec_max_framerate(),
    {
        &self.max_framerate
    }

    pub fn segment_alignment(&self) -> (r: &Option<bool>)
        ensures
            *r == self.spec_segment_alignment(),
    {
        &self.segment_alignment
    }

    pub fn bitstream_switching(&self) -> (r: &Option<bool>)
        ensures
            *r == self.spec_bitstream_switching(),
    {
        &self.bitstream_switching
    }

    pub fn subsegment_alignment(&self) -> (r: &Option<bool>)
        ensures
            *r == self.spec_subsegment_alignment(),
    {
        &self.subsegment_alignment
    }

    pub fn subsegment_starts_with_sap(&self) -> (r: &Option<StreamAccessPoint>)
        ensures
            *r == self.spec_subsegment_starts_with_sap(),
    {
        &self.subsegment_starts_with_sap
    }

    pub fn initialization_set_ref(&self) -> (r: &Option<UIntVector>)
        ensures
            *r == self.spec_initialization_set_ref(),
    {
        &self.initialization_set_ref
    }

    pub fn initialization_principal(&self) -> (r: &Option<XsAnyURI>)
        ensures
            *r == self.spec_initialization_principal(),
    {
        &self.initialization_principal
    }

    pub fn accessibility(&self) -> (r: &Option<Vec<Descriptor>>)
        ensures
            *r == self.spec_accessibility(),
    {
        &self.accessibility
    }

    pub fn role(&self) -> (r: &Option<Vec<Descriptor>>)
        ensures
            *r == self.spec_role(),
    {
        &self.role
    }

    pub fn rating(&self) -> (r: &Option<Vec<Descriptor>>)
        ensures
            *r == self.spec_rating(),
    {
        &self.rating
    }

    pub fn viewpoint(&self) -> (r: &Option<Vec<Descriptor>>)
        ensures
            *r == self.spec_viewpoint(),
    {
        &self.viewpoint
    }

    pub fn content_component(&self) -> (r: &Option<Vec<ContentComponent>>)
        ensures
            *r == self.spec_content_component(),
    {
        &self.content_component
    }

    pub fn base_url(&self) -> (r: &Option<Vec<BaseURL>>)
        ensures
            *r == self.spec_base_url(),
    {
        &self.base_url
    }

    pub fn segment_base(&self) -> (r: &Option<SegmentBase>)
        ensures
            *r == self.spec_segment_base(),
    {
        &self.segment_base
    }

    pub fn segment_list(&self) -> (r: &Option<SegmentList>)
        ensures
            *r == self.spec_segment_list(),
    {
        &self.segment_list
    }

    pub fn segment_template(&self) -> (r: &Option<SegmentTemplate>)
        ensures
            *r == self.spec_segment_template(),
    {
        &self.segment_template
    }

    pub fn representation(&self) -> (r: &Option<Vec<Representation>>)
        ensures
            *r == self.spec_representation(),
    {
        &self.representation
    }
}

/// Accumulates the fields of a [`AdaptationSet`]; [`AdaptationSetBuilder::build`] checks them.
#[derive(Debug, Default, Clone)]
pub struct AdaptationSetBuilder {
    pub href: Option<String>,
    pub actuate: Option<XLinkActure>,
    pub id: Option<u32>,
    pub group: Option<u32>,
    pub profiles: Option<ListOfProfiles>,
    pub width: Option<u32>,
    pub height: Option<u32>,
    pub sar: Option<Ratio>,
    pub framerate: Option<FrameRate>,
    pub audio_sampling_rate: Option<AudioSamplingRate>,
    pub mime_type: Option<String>,
    pub segment_profiles: Option<ListOfFourCC>,
    pub codecs: Option<Codecs>,
    pub container_profiles: Option<ListOfFourCC>,
    pub maximum_sap_period: Option<XsDouble>,
    pub start_with_sap: Option<StreamAccessPoint>,
    pub max_playout_rate: Option<XsDouble>,
    pub coding_dependency: Option<bool>,
    pub scan_type: Option<VideoScan>,
    pub selection_priority: Option<u32>,
    pub tag: Option<Tag>,
    pub frame_packing: Option<Vec<Descriptor>>,
    pub audio_channel_configuration: Option<Vec<Descriptor>>,
    pub content_protection: Option<Vec<ContentProtection>>,
    pub output_protection: Option<Vec<Descriptor>>,
    pub essential_property: Option<Vec<Descriptor>>,
    pub supplemental_property: Option<Vec<Descriptor>>,
    pub inband_event_stream: Option<Vec<EventStream>>,
    pub switching: Option<Vec<Switching>>,
    pub random_access: Option<Vec<RandomAccess>>,
    pub group_lavel: Option<Vec<Label>>,
    pub lavel: Option<Vec<Label>>,
    pub producer_reference_time: Option<Vec<ProducerReferenceTime>>,
    pub content_popularity_rate: Option<Vec<ContentPopularityRate>>,
    pub resync: Option<Vec<Resync>>,
    pub lang: Option<XsLanguage>,
    pub content_type: Option<ContentType>,
    pub par: Option<Ratio>,
    pub min_bandwidth: Option<u32>,
    pub max_bandwidth: Option<u32>,
    pub min_width: Option<u32>,
    pub max_width: Option<u32>,
    pub min_height: Option<u32>,
    pub max_height: Option<u32>,
    pub min_framerate: Option<FrameRate>,
    pub max_framerate: Option<FrameRate>,
    pub segment_alignment: Option<bool>,
    pub bitstream_switching: Option<bool>,
    pub subsegment_alignment: Option<bool>,
    pub subsegment_starts_with_sap: Option<StreamAccessPoint>,
    pub initialization_set_ref: Option<UIntVector>,
    pub initialization_principal: Option<XsAnyURI>,
    pub accessibility: Option<Vec<Descriptor>>,
    pub role: Option<Vec<Descriptor>>,
    pub rating: Option<Vec<Descriptor>>,
    pub viewpoint: Option<Vec<Descriptor>>,
    pub content_component: Option<Vec<ContentComponent>>,
    pub base_url: Option<Vec<BaseURL>>,
    pub segment_base: Option<SegmentBase>,
    pub segment_list: Option<SegmentList>,
    pub segment_template: Option<SegmentTemplate>,
    pub representation: Option<Vec<Representation>>,
}

impl AdaptationSetBuilder {
    /// Whether the fields meet the rules of a [`AdaptationSet`].
    pub open spec fn meets_rules(&self) -> bool {
        self.first_broken_rule() is None
    }

    pub fn href(self, v: &str) -> (r: Self)
        ensures
            (r.href matches Some(x) && x@ == v@),
            r == (AdaptationSetBuilder { href: r.href, ..self }),
    {
        AdaptationSetBuilder { href: Some(v.to_owned()), ..self }
    }

    pub fn actuate(self, v: XLinkActure) -> (r: Self)
        ensures
            r == (AdaptationSetBuilder { actuate: Some(v), ..self }),
    {
        AdaptationSetBuilder { actuate: Some(v), ..self }
    }

    pub fn id(self, v: u32) -> (r: Self)
        ensures
            r == (AdaptationSetBuilder { id: Some(v), ..self }),
    {
        AdaptationSetBuilder { id: Some(v), ..self }
    }

    pub fn group(self, v: u32) -> (r: Self)
        ensures
            r == (AdaptationSetBuilder { group: Some(v), ..self }),
    {
        AdaptationSetBuilder { group: Some(v), ..self }
    }

    pub fn profiles(self, v: Vec<Profile>) -> (r: Self)
        ensures
            (r.profiles matches Some(x) && x.view() == v@.map_values(|p: Profile| p.view())),
            r == (AdaptationSetBuilder { profiles: r.profiles, ..self }),
    {
        AdaptationSetBuilder { profiles: Some(ListOfProfiles::from(v)), ..self }
    }

    pub fn width(self, v: u32) -> (r: Self)
        ensures
            r == (AdaptationSetBuilder { width: Some(v), ..self }),
    {
        AdaptationSetBuilder { width: Some(v), ..self }
    }

    pub fn height(self, v: u32) -> (r: Self)
        ensures
            r == (AdaptationSetBuilder { height: Some(v), ..self }),
    {
        AdaptationSetBuilder { height: Some(v), ..self }
    }

    pub fn sar(self, v: Ratio) -> (r: Self)
        ensures
            r == (AdaptationSetBuilder { sar: Some(v), ..self }),
    {
        AdaptationSetBuilder { sar: Some(v), ..self }
    }

    pub fn framerate(self, v: FrameRate) -> (r: Self)
        ensures
            r == (AdaptationSetBuilder { framerate: Some(v), ..self }),
    {
        AdaptationSetBuilder { framerate: Some(v), ..self }
    }

    pub fn audio_sampling_rate(self, v: AudioSamplingRate) -> (r: Self)
        ensures
            r == (AdaptationSetBuilder { audio_sampling_rate: Some(v), ..self }),
    {
        AdaptationSetBuilder { audio_sampling_rate: Some(v), ..self }
    }

    pub fn mime_type(self, v: &str) -> (r: Self)
        ensures
            (r.mime_type matches Some(x) && x@ == v@),
            r == (AdaptationSetBuilder { mime_type: r.mime_type, ..self }),
    {
        AdaptationSetBuilder { mime_type: Some(v.to_owned()), ..self }
    }

    pub fn segment_profiles(self, v: ListOfFourCC) -> (r: Self)
        ensures
            r == (AdaptationSetBuilder { segment_profiles: Some(v), ..self }),
    {
        AdaptationSetBuilder { segment_profiles: Some(v), ..self }
    }

    pub fn codecs(self, v: Codecs) -> (r: Self)
        ensures
            r == (AdaptationSetBuilder { codecs: Some(v), ..self }),
    {
        AdaptationSetBuilder { codecs: Some(v), ..self }
    }

    pub fn container_profiles(self, v: ListOfFourCC) -> (r: Self)
        ensures
            r == (AdaptationSetBuilder { container_profiles: Some(v), ..self }),
    {
        AdaptationSetBuilder { container_profiles: Some(v), ..self }
    }

    pub fn maximum_sap_period(self, v: XsDouble) -> (r: Self)
        ensures
            r == (AdaptationSetBuilder { maximum_sap_period: Some(v), ..self }),
    {
        AdaptationSetBuilder { maximum_sap_period: Some(v), ..self }
    }

    pub fn start_with_sap(self, v: StreamAccessPoint) -> (r: Self)
        ensures
            r == (AdaptationSetBuilder { start_with_sap: Some(v), ..self }),
    {
        AdaptationSetBuilder { start_with_sap: Some(v), ..self }
    }

    pub fn max_playout_rate(self, v: XsDouble) -> (r: Self)
        ensures
            r == (AdaptationSetBuilder { max_playout_rate: Some(v), ..self }),
    {
        AdaptationSetBuilder { max_playout_rate: Some(v), ..self }
    }

    pub fn coding_dependency(self, v: bool) -> (r: Self)
        ensures
            r == (AdaptationSetBuilder { coding_dependency: Some(v), ..self }),
    {
        AdaptationSetBuilder { coding_dependency: Some(v), ..self }
    }

    pub fn scan_type(self, v: VideoScan) -> (r: Self)
        ensures
            r == (AdaptationSetBuilder { scan_type: Some(v), ..self }),
    {
        AdaptationSetBuilder { scan_type: Some(v), ..self }
    }

    pub fn selection_priority(self, v: u32) -> (r: Self)
        ensures
            r == (AdaptationSetBuilder { selection_priority: Some(v), ..self }),
    {
        AdaptationSetBuilder { selection_priority: Some(v), ..self }
    }

    pub fn tag(self, v: &str) -> (r: Self)
        ensures
            (r.tag matches Some(x) && x.view() == v@),
            r == (AdaptationSetBuilder { tag: r.tag, ..self }),
    {
        AdaptationSetBuilder { tag: Some(Tag::from(v)), ..self }
    }

    pub fn frame_packing(self, v: Vec<Descriptor>) -> (r: Self)
        ensures
            r == (AdaptationSetBuilder { frame_packing: Some(v), ..self }),
    {
        AdaptationSetBuilder { frame_packing: Some(v), ..self }
    }

    pub fn audio_channel_configuration(self, v: Vec<Descriptor>) -> (r: Self)
        ensures
            r == (AdaptationSetBuilder { audio_channel_configuration: Some(v), ..self }),
    {
        AdaptationSetBuilder { audio_channel_configuration: Some(v), ..self }
    }

    pub fn content_protection(self, v: Vec<ContentProtection>) -> (r: Self)
        ensures
            r == (AdaptationSetBuilder { content_protection: Some(v), ..self }),
    {
        AdaptationSetBuilder { content_protection: Some(v), ..self }
    }

    pub fn output_protection(self, v: Vec<Descriptor>) -> (r: Self)
        ensures
            r == (AdaptationSetBuilder { output_protection: Some(v), ..self }),
    {
        AdaptationSetBuilder { output_protection: Some(v), ..self }
    }

    pub fn essential_property(self, v: Vec<Descriptor>) -> (r: Self)
        ensures
            r == (AdaptationSetBuilder { essential_property: Some(v), ..self }),
    {
        AdaptationSetBuilder { essential_property: Some(v), ..self }
    }

    pub fn supplemental_property(self, v: Vec<Descriptor>) -> (r: Self)
        ensures
            r == (AdaptationSetBuilder { supplemental_property: Some(v), ..self }),
    {
        AdaptationSetBuilder { supplemental_property: Some(v), ..self }
    }

    pub fn inband_event_stream(self, v: Vec<EventStream>) -> (r: Self)
        ensures
            r == (AdaptationSetBuilder { inband_event_stream: Some(v), ..self }),
    {
        AdaptationSetBuilder { inband_event_stream: Some(v), ..self }
    }

    pub fn switching(self, v: Vec<Switching>) -> (r: Self)
        ensures
            r == (AdaptationSetBuilder { switching: Some(v), ..self }),
    {
        AdaptationSetBuilder { switching: Some(v), ..self }
    }

    pub fn random_access(self, v: Vec<RandomAccess>) -> (r: Self)
        ensures
            r == (AdaptationSetBuilder { random_access: Some(v), ..self }),
    {
        AdaptationSetBuilder { random_access: Some(v), ..self }
    }

    pub fn group_lavel(self, v: Vec<Label>) -> (r: Self)
        ensures
            r == (AdaptationSetBuilder { group_lavel: Some(v), ..self }),
    {
        AdaptationSetBuilder { group_lavel: Some(v), ..self }
    }

    pub fn lavel(self, v: Vec<Label>) -> (r: Self)
        ensures
            r == (AdaptationSetBuilder { lavel: Some(v), ..self }),
    {
        AdaptationSetBuilder { lavel: Some(v), ..self }
    }

    pub fn producer_reference_time(self, v: Vec<ProducerReferenceTime>) -> (r: Self)
        ensures
            r == (AdaptationSetBuilder { producer_reference_time: Some(v), ..self }),
    {
        AdaptationSetBuilder { producer_reference_time: Some(v), ..self }
    }

    pub fn content_popularity_rate(self, v: Vec<ContentPopularityRate>) -> (r: Self)
        ensures
            r == (AdaptationSetBuilder { content_popularity_rate: Some(v), ..self }),
    {
        AdaptationSetBuilder { content_popularity_rate: Some(v), ..self }
    }

    pub fn resync(self, v: Vec<Resync>) -> (r: Self)
        ensures
            r == (AdaptationSetBuilder { resync: Some(v), ..self }),
    {
        AdaptationSetBuilder { resync: Some(v), ..self }
    }

    pub fn lang(self, v: XsLanguage) -> (r: Self)
        ensures
            r == (AdaptationSetBuilder { lang: Some(v), ..self }),
    {
        AdaptationSetBuilder { lang: Some(v), ..self }
    }

    pub fn content_type(self, v: ContentType) -> (r: Self)
        ensures
            r == (AdaptationSetBuilder { content_type: Some(v), ..self }),
    {
        AdaptationSetBuilder { content_type: Some(v), ..self }
    }

    pub fn par(self, v: Ratio) -> (r: Self)
        ensures
            r == (AdaptationSetBuilder { par: Some(v), ..self }),
    {
        AdaptationSetBuilder { par: Some(v), ..self }
    }

    pub fn min_bandwidth(self, v: u32) -> (r: Self)
        ensures
            r == (AdaptationSetBuilder { min_bandwidth: Some(v), ..self }),
    {
        AdaptationSetBuilder { min_bandwidth: Some(v), ..self }
    }

    pub fn max_bandwidth(self, v: u32) -> (r: Self)
        ensures
            r == (AdaptationSetBuilder { max_bandwidth: Some(v), ..self }),
    {
        AdaptationSetBuilder { max_bandwidth: Some(v), ..self }
    }

    pub fn min_width(self, v: u32) -> (r: Self)
        ensures
            r == (AdaptationSetBuilder { min_width: Some(v), ..self }),
    {
        AdaptationSetBuilder { min_width: Some(v), ..self }
    }

    pub fn max_width(self, v: u32) -> (r: Self)
        ensures
            r == (AdaptationSetBuilder { max_width: Some(v), ..self }),
    {
        AdaptationSetBuilder { max_width: Some(v), ..self }
    }

    pub fn min_height(self, v: u32) -> (r: Self)
        ensures
            r == (AdaptationSetBuilder { min_height: Some(v), ..self }),
    {
        AdaptationSetBuilder { min_height: Some(v), ..self }
    }

    pub fn max_height(self, v: u32) -> (r: Self)
        ensures
            r == (AdaptationSetBuilder { max_height: Some(v), ..self }),
    {
        AdaptationSetBuilder { max_height: Some(v), ..self }
    }

    pub fn min_framerate(self, v: FrameRate) -> (r: Self)
        ensures
            r == (AdaptationSetBuilder { min_framerate: Some(v), ..self }),
    {
        AdaptationSetBuilder { min_framerate: Some(v), ..self }
    }

    pub fn max_framerate(self, v: FrameRate) -> (r: Self)
        ensures
            r == (AdaptationSetBuilder { max_framerate: Some(v), ..self }),
    {
        AdaptationSetBuilder { max_framerate: Some(v), ..self }
    }

    pub fn segment_alignment(self, v: bool) -> (r: Self)
        ensures
            r == (AdaptationSetBuilder { segment_alignment: Some(v), ..self }),
    {
        AdaptationSetBuilder { segment_alignment: Some(v), ..self }
    }

    pub fn bitstream_switching(self, v: bool) -> (r: Self)
        ensures
            r == (AdaptationSetBuilder { bitstream_switching: Some(v), ..self }),
    {
        AdaptationSetBuilder { bitstream_switching: Some(v), ..self }
    }

    pub fn subsegment_alignment(self, v: bool) -> (r: Self)
        ensures
            r == (AdaptationSetBuilder { subsegment_alignment: Some(v), ..self }),
    {
        AdaptationSetBuilder { subsegment_alignment: Some(v), ..self }
    }

    pub fn subsegment_starts_with_sap(self, v: StreamAccessPoint) -> (r: Self)
        ensures
            r == (AdaptationSetBuilder { subsegment_starts_with_sap: Some(v), ..self }),
    {
        AdaptationSetBuilder { subsegment_starts_with_sap: Some(v), ..self }
    }

    pub fn initialization_set_ref(self, v: UIntVector) -> (r: Self)
        ensures
            r == (AdaptationSetBuilder { initialization_set_ref: Some(v), ..self }),
    {
        AdaptationSetBuilder { initialization_set_ref: Some(v), ..self }
    }

    pub fn initialization_principal(self, v: &str) -> (r: Self)
        ensures
            (r.initialization_principal matches Some(x) && x.view() == v@),
            r == (AdaptationSetBuilder { initialization_principal: r.initialization_principal, ..self }),
    {
        AdaptationSetBuilder { initialization_principal: Some(XsAnyURI::from(v)), ..self }
    }

    pub fn accessibility(self, v: Vec<Descriptor>) -> (r: Self)
        ensures
            r == (AdaptationSetBuilder { accessibility: Some(v), ..self }),
    {
        AdaptationSetBuilder { accessibility: Some(v), ..self }
    }

    pub fn role(self, v: Vec<Descriptor>) -> (r: Self)
        ensures
            r == (AdaptationSetBuilder { role: Some(v), ..self }),
    {
        AdaptationSetBuilder { role: Some(v), ..self }
    }

    pub fn rating(self, v: Vec<Descriptor>) -> (r: Self)
        ensures
            r == (AdaptationSetBuilder { rating: Some(v), ..self }),
    {
        AdaptationSetBuilder { rating: Some(v), ..self }
    }

    pub fn viewpoint(self, v: Vec<Descriptor>) -> (r: Self)
        ensures
            r == (AdaptationSetBuilder { viewpoint: Some(v), ..self }),
    {
        AdaptationSetBuilder { viewpoint: Some(v), ..self }
    }

    pub fn content_component(self, v: Vec<ContentComponent>) -> (r: Self)
        ensures
            r == (AdaptationSetBuilder { content_component: Some(v), ..self }),
    {
        AdaptationSetBuilder { content_component: Some(v), ..self }
    }

    pub fn base_url(self, v: Vec<BaseURL>) -> (r: Self)
        ensures
            r == (AdaptationSetBuilder { base_url: Some(v), ..self }),
    {
        AdaptationSetBuilder { base_url: Some(v), ..self }
    }

    pub fn segment_base(self, v: SegmentBase) -> (r: Self)
        ensures
            r == (AdaptationSetBuilder { segment_base: Some(v), ..self }),
    {
        AdaptationSetBuilder { segment_base: Some(v), ..self }
    }

    pub fn segment_list(self, v: SegmentList) -> (r: Self)
        ensures
            r == (AdaptationSetBuilder { segment_list: Some(v), ..self }),
    {
        AdaptationSetBuilder { segment_list: Some(v), ..self }
    }

    pub fn segment_template(self, v: SegmentTemplate) -> (r: Self)
        ensures
            r == (AdaptationSetBuilder { segment_template: Some(v), ..self }),
    {
        AdaptationSetBuilder { segment_template: Some(v), ..self }
    }

    pub fn representation(self, v: Vec<Representation>) -> (r: Self)
        ensures
            r == (AdaptationSetBuilder { representation: Some(v), ..self }),
    {
        AdaptationSetBuilder { representation: Some(v), ..self }
    }

    /// Checks the rules and makes the [`AdaptationSet`].
    pub fn build(self) -> (r: Result<AdaptationSet, MpdError>)
        ensures
            r is Ok <==> self.meets_rules(),
            self.first_broken_rule() matches Some(e) ==> r == Err::<AdaptationSet, MpdError>(e),
            r matches Ok(e) ==> e.spec_href() == self.href,
            r matches Ok(e) ==> e.spec_actuate() == self.actuate,
            r matches Ok(e) ==> e.spec_id() == self.id,
            r matches Ok(e) ==> e.spec_group() == self.group,
            r matches Ok(e) ==> e.spec_profiles() == self.profiles,
            r matches Ok(e) ==> e.spec_width() == self.width,
            r matches Ok(e) ==> e.spec_height() == self.height,
            r matches Ok(e) ==> e.spec_sar() == self.sar,
            r matches Ok(e) ==> e.spec_framerate() == self.framerate,
            r matches Ok(e) ==> e.spec_audio_sampling_rate() == self.audio_sampling_rate,
            r matches Ok(e) ==> e.spec_mime_type() == self.mime_type,
            r matches Ok(e) ==> e.spec_segment_profiles() == self.segment_profiles,
            r matches Ok(e) ==> e.spec_codecs() == self.codecs,
            r matches Ok(e) ==> e.spec_container_profiles() == self.container_profiles,
            r matches Ok(e) ==> e.spec_maximum_sap_period() == self.maximum_sap_period,
            r matches Ok(e) ==> e.spec_start_with_sap() == self.start_with_sap,
            r matches Ok(e) ==> e.spec_max_playout_rate() == self.max_playout_rate,
            r matches Ok(e) ==> e.spec_coding_dependency() == self.coding_dependency,
            r matches Ok(e) ==> e.spec_scan_type() == self.scan_type,
            r matches Ok(e) ==> e.spec_selection_priority() == self.selection_priority,
            r matches Ok(e) ==> e.spec_tag() == self.tag,
            r matches Ok(e) ==> e.spec_frame_packing() == self.frame_packing,
            r matches Ok(e) ==>
                e.spec_audio_channel_configuration() == self.audio_channel_configuration,
            r matches Ok(e) ==> e.spec_content_protection() == self.content_protection,
            r matches Ok(e) ==> e.spec_output_protection() == self.output_protection,
            r matches Ok(e) ==> e.spec_essential_property() == self.essential_property,
            r matches Ok(e) ==> e.spec_supplemental_property() == self.supplemental_property,
            r matches Ok(e) ==> e.spec_inband_event_stream() == self.inband_event_stream,
            r matches Ok(e) ==> e.spec_switching() == self.switching,
            r matches Ok(e) ==> e.spec_random_access() == self.random_access,
            r matches Ok(e) ==> e.spec_group_lavel() == self.group_lavel,
            r matches Ok(e) ==> e.spec_lavel() == self.lavel,
            r matches Ok(e) ==> e.spec_producer_reference_time() == self.producer_reference_time,
            r matches Ok(e) ==> e.spec_content_popularity_rate() == self.content_popularity_rate,
            r matches Ok(e) ==> e.spec_resync() == self.resync,
            r matches Ok(e) ==> e.spec_lang() == self.lang,
            r matches Ok(e) ==> e.spec_content_type() == self.content_type,
            r matches Ok(e) ==> e.spec_par() == self.par,
            r matches Ok(e) ==> e.spec_min_bandwidth() == self.min_bandwidth,
            r matches Ok(e) ==> e.spec_max_bandwidth() == self.max_bandwidth,
            r matches Ok(e) ==> e.spec_min_width() == self.min_width,
            r matches Ok(e) ==> e.spec_max_width() == self.max_width,
            r matches Ok(e) ==> e.spec_min_height() == self.min_height,
            r matches Ok(e) ==> e.spec_max_height() == self.max_height,
            r matches Ok(e) ==> e.spec_min_framerate() == self.min_framerate,
            r matches Ok(e) ==> e.spec_max_framerate() == self.max_framerate,
            r matches Ok(e) ==> e.spec_segment_alignment() == self.segment_alignment,
            r matches Ok(e) ==> e.spec_bitstream_switching() == self.bitstream_switching,
            r matches Ok(e) ==> e.spec_subsegment_alignment() == self.subsegment_alignment,
            r matches Ok(e) ==>
                e.spec_subsegment_starts_with_sap() == self.subsegment_starts_with_sap,
            r matches Ok(e) ==> e.spec_initialization_set_ref() == self.initialization_set_ref,
            r matches Ok(e) ==> e.spec_initialization_principal() == self.initialization_principal,
            r matches Ok(e) ==> e.spec_accessibility() == self.accessibility,
            r matches Ok(e) ==> e.spec_role() == self.role,
            r matches Ok(e) ==> e.spec_rating() == self.rating,
            r matches Ok(e) ==> e.spec_viewpoint() == self.viewpoint,
            r matches Ok(e) ==> e.spec_content_component() == self.content_component,
            r matches Ok(e) ==> e.spec_base_url() == self.base_url,
            r matches Ok(e) ==> e.spec_segment_base() == self.segment_base,
            r matches Ok(e) ==> e.spec_segment_list() == self.segment_list,
            r matches Ok(e) ==> e.spec_segment_template() == self.segment_template,
            r matches Ok(e) ==> e.spec_representation() == self.representation,
    {
        if let Err(e) = self.validate() {
            return Err(e);
        }
        Ok(AdaptationSet {
            href: self.href,
            actuate: self.actuate,
            id: self.id,
            group: self.group,
            profiles: self.profiles,
            width: self.width,
            height: self.height,
            sar: self.sar,
            framerate: self.framerate,
            audio_sampling_rate: self.audio_sampling_rate,
            mime_type: self.mime_type,
            segment_profiles: self.segment_profiles,
            codecs: self.codecs,
            container_profiles: self.container_profiles,
            maximum_sap_period: self.maximum_sap_period,
            start_with_sap: self.start_with_sap,
            max_playout_rate: self.max_playout_rate,
            coding_dependency: self.coding_dependency,
            scan_type: self.scan_type,
            selection_priority: self.selection_priority,
            tag: self.tag,
            frame_packing: self.frame_packing,
            audio_channel_configuration: self.audio_channel_configuration,
            content_protection: self.content_protection,
            output_protection: self.output_protection,
            essential_property: self.essential_property,
            supplemental_property: self.supplemental_property,
            inband_event_stream: self.inband_event_stream,
            switching: self.switching,
            random_access: self.random_access,
            group_lavel: self.group_lavel,
            lavel: self.lavel,
            producer_reference_time: self.producer_reference_time,
            content_popularity_rate: self.content_popularity_rate,
            resync: self.resync,
            lang: self.lang,
            content_type: self.content_type,
            par: self.par,
            min_bandwidth: self.min_bandwidth,
            max_bandwidth: self.max_bandwidth,
            min_width: self.min_width,
            max_width: self.max_width,
            min_height: self.min_height,
            max_height: self.max_height,
            min_framerate: self.min_framerate,
            max_framerate: self.max_framerate,
            segment_alignment: self.segment_alignment,
            bitstream_switching: self.bitstream_switching,
            subsegment_alignment: self.subsegment_alignment,
            subsegment_starts_with_sap: self.subsegment_starts_with_sap,
            initialization_set_ref: self.initialization_set_ref,
            initialization_principal: self.initialization_principal,
            accessibility: self.accessibility,
            role: self.role,
            rating: self.rating,
            viewpoint: self.viewpoint,
            content_component: self.content_component,
            base_url: self.base_url,
            segment_base: self.segment_base,
            segment_list: self.segment_list,
            segment_template: self.segment_template,
            representation: self.representation,
        })
    }
}

impl NeedValidater for AdaptationSetBuilder {
    open spec fn first_broken_rule(&self) -> Option<MpdError> {
        if (self.segment_base is Some && self.segment_list is Some) || (self.segment_base is Some && self.segment_template is Some) || (self.segment_list is Some && self.segment_template is Some) {
            Some(MpdError::InvalidFieldCombination("segment_base, segment_list, segment_template"))
        } else {
            None
        }
    }

    fn validate(&self) -> (r: Result<(), MpdError>) {
        if (self.segment_base.is_some() && self.segment_list.is_some()) || (self.segment_base.is_some() && self.segment_template.is_some()) || (self.segment_list.is_some() && self.segment_template.is_some()) {
            return Err(MpdError::InvalidFieldCombination("segment_base, segment_list, segment_template"));
        }
        Ok(())
    }
}

} // verus!
