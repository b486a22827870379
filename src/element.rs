use vstd::prelude::*;

use crate::codecs::Codecs;
use crate::datetime::XsDateTime;
use crate::definition::{ListOfProfiles, Profile};
use crate::duration::XsDuration;
use crate::element::segment::Segment;
use crate::enums::{
    BandwidthMediaType, ContentEncoding, ContentType, PreselectionOrderType,
    ProducerReferenceTimeType, QualityMediaType, RandomAccessType, Source, SwitchingType,
    VideoScan, XLinkActure,
};
use crate::error::MpdError;
use crate::lists::{
    AudioSamplingRate, ListOfFourCC, StringVector, UIntVector, WhitespaceSeparatedList,
};
use crate::ratio::{FrameRate, Ratio};
use crate::types::{
    NoWhitespace, SingleByteRange, StreamAccessPoint, Tag, XsAnyURI, XsDouble, XsId, XsLanguage,
};

pub mod adapt;
pub mod mpd;
pub mod period;
pub mod repr;
pub mod segment;

verus! {

/// The rules that a builder checks before it makes its entity.
pub trait NeedValidater {
    /// The error for the first rule, in the order they are checked, that
    /// the fields break; `None` when they meet them all.
    spec fn first_broken_rule(&self) -> Option<MpdError>;

    /// Checks the rules.
    fn validate(&self) -> (r: Result<(), MpdError>)
        ensures
            match self.first_broken_rule() {
                None => r is Ok,
                Some(e) => r == Err::<(), MpdError>(e),
            },
    ;
}

/// A group label has the shape of a label.
pub type GroupLavel = Label;

/// Whether the type is `application`.
pub fn is_application(t: &Option<ProducerReferenceTimeType>) -> (r: bool)
    ensures
        r == (*t == Some(ProducerReferenceTimeType::Application)),
{
    match t {
        Some(ProducerReferenceTimeType::Application) => true,
        _ => false,
    }
}

/// Program information.
#[derive(Debug, Clone, PartialEq, Eq, Default)]
pub struct ProgramInformation {
    lang: Option<XsLanguage>,
    more_information_url: Option<XsAnyURI>,
    title: Option<String>,
    source: Option<String>,
    copyright: Option<String>,
}

impl ProgramInformation {
    pub closed spec fn spec_lang(&self) -> Option<XsLanguage> {
        self.lang
    }

    pub closed spec fn spec_more_information_url(&self) -> Option<XsAnyURI> {
        self.more_information_url
    }

    pub closed spec fn spec_title(&self) -> Option<String> {
        self.title
    }

    pub closed spec fn spec_source(&self) -> Option<String> {
        self.source
    }

    pub closed spec fn spec_copyright(&self) -> Option<String> {
        self.copyright
    }

    pub fn lang(&self) -> (r: &Option<XsLanguage>)
        ensures
            *r == self.spec_lang(),
    {
        &self.lang
    }

    pub fn more_information_url(&self) -> (r: &Option<XsAnyURI>)
        ensures
            *r == self.spec_more_information_url(),
    {
        &self.more_information_url
    }

    pub fn title(&self) -> (r: &Option<String>)
        ensures
            *r == self.spec_title(),
    {
        &self.title
    }

    pub fn source(&self) -> (r: &Option<String>)
        ensures
            *r == self.spec_source(),
    {
        &self.source
    }

    pub fn copyright(&self) -> (r: &Option<String>)
        ensures
            *r == self.spec_copyright(),
    {
        &self.copyright
    }
}

/// Accumulates the fields of a [`ProgramInformation`]; [`ProgramInformationBuilder::build`] checks
/// them.
#[derive(Debug, Default, Clone)]
pub struct ProgramInformationBuilder {
    pub lang: Option<XsLanguage>,
    pub more_information_url: Option<XsAnyURI>,
    pub title: Option<String>,
    pub source: Option<String>,
    pub copyright: Option<String>,
}

impl ProgramInformationBuilder {
    pub fn lang(self, v: XsLanguage) -> (r: Self)
        ensures
            r == (ProgramInformationBuilder { lang: Some(v), ..self }),
    {
        ProgramInformationBuilder { lang: Some(v), ..self }
    }

    pub fn more_information_url(self, v: &str) -> (r: Self)
        ensures
            (r.more_information_url matches Some(x) && x.view() == v@),
            r == (ProgramInformationBuilder { more_information_url: r.more_information_url, ..self }),
    {
        ProgramInformationBuilder { more_information_url: Some(XsAnyURI::from(v)), ..self }
    }

    pub fn title(self, v: &str) -> (r: Self)
        ensures
            (r.title matches Some(x) && x@ == v@),
            r == (ProgramInformationBuilder { title: r.title, ..self }),
    {
        ProgramInformationBuilder { title: Some(v.to_owned()), ..self }
    }

    pub fn source(self, v: &str) -> (r: Self)
        ensures
            (r.source matches Some(x) && x@ == v@),
            r == (ProgramInformationBuilder { source: r.source, ..self }),
    {
        ProgramInformationBuilder { source: Some(v.to_owned()), ..self }
    }

    pub fn copyright(self, v: &str) -> (r: Self)
        ensures
            (r.copyright matches Some(x) && x@ == v@),
            r == (ProgramInformationBuilder { copyright: r.copyright, ..self }),
    {
        ProgramInformationBuilder { copyright: Some(v.to_owned()), ..self }
    }

    /// Checks the rules and makes the [`ProgramInformation`].
    pub fn build(self) -> (r: Result<ProgramInformation, MpdError>)
        ensures
            r is Ok,
            r matches Ok(e) ==> e.spec_lang() == self.lang,
            r matches Ok(e) ==> e.spec_more_information_url() == self.more_information_url,
            r matches Ok(e) ==> e.spec_title() == self.title,
            r matches Ok(e) ==> e.spec_source() == self.source,
            r matches Ok(e) ==> e.spec_copyright() == self.copyright,
    {
        Ok(ProgramInformation {
            lang: self.lang,
            more_information_url: self.more_information_url,
            title: self.title,
            source: self.source,
            copyright: self.copyright,
        })
    }
}

/// Patch location.
#[derive(Debug, Clone, PartialEq, Eq, Default)]
pub struct PatchLocation {
    base: XsAnyURI,
    ttl: Option<XsDouble>,
}

impl PatchLocation {
    pub closed spec fn spec_base(&self) -> XsAnyURI {
        self.base
    }

    pub closed spec fn spec_ttl(&self) -> Option<XsDouble> {
        self.ttl
    }

    pub fn base(&self) -> (r: &XsAnyURI)
        ensures
            *r == self.spec_base(),
    {
        &self.base
    }

    pub fn ttl(&self) -> (r: &Option<XsDouble>)
        ensures
            *r == self.spec_ttl(),
    {
        &self.ttl
    }
}

/// Accumulates the fields of a [`PatchLocation`]; [`PatchLocationBuilder::build`] checks them.
#[derive(Debug, Default, Clone)]
pub struct PatchLocationBuilder {
    pub base: Option<XsAnyURI>,
    pub ttl: Option<XsDouble>,
}

impl PatchLocationBuilder {
    pub fn base(self, v: &str) -> (r: Self)
        ensures
            (r.base matches Some(x) && x.view() == v@),
            r == (PatchLocationBuilder { base: r.base, ..self }),
    {
        PatchLocationBuilder { base: Some(XsAnyURI::from(v)), ..self }
    }

    pub fn ttl(self, v: XsDouble) -> (r: Self)
        ensures
            r == (PatchLocationBuilder { ttl: Some(v), ..self }),
    {
        PatchLocationBuilder { ttl: Some(v), ..self }
    }

    /// Checks the rules and makes the [`PatchLocation`].
    pub fn build(self) -> (r: Result<PatchLocation, MpdError>)
        ensures
            r is Ok,
            r matches Ok(e) ==> (self.base is Some ==> self.base == Some(e.spec_base())),
            r matches Ok(e) ==> e.spec_ttl() == self.ttl,
    {
        let base = match self.base {
            Some(v) => v,
            None => XsAnyURI::from(""),
        };
        Ok(PatchLocation {
            base,
            ttl: self.ttl,
        })
    }
}

/// Initialization set.
#[derive(Debug, Clone, PartialEq, Eq, Default)]
pub struct InitializationSet {
    href: Option<String>,
    actuate: Option<XLinkActure>,
    id: u32,
    in_all_periods: Option<bool>,
    content_type: Option<ContentType>,
    par: Option<Ratio>,
    max_width: Option<u32>,
    max_height: Option<u32>,
    max_framerate: Option<FrameRate>,
    initialization: Option<XsAnyURI>,
    profiles: Option<ListOfProfiles>,
    width: Option<u32>,
    height: Option<u32>,
    sar: Option<Ratio>,
    framerate: Option<FrameRate>,
    audio_sampling_rate: Option<AudioSamplingRate>,
    mime_type: Option<String>,
    segment_profiles: Option<ListOfFourCC>,
    codecs: Option<Codecs>,
    container_profiles: Option<ListOfFourCC>,
    maximum_sap_period: Option<XsDouble>,
    start_with_sap: Option<StreamAccessPoint>,
    max_playout_rate: Option<XsDouble>,
    coding_dependency: Option<bool>,
    scan_type: Option<VideoScan>,
    selection_priority: Option<u32>,
    tag: Option<Tag>,
    frame_packing: Option<Vec<Descriptor>>,
    audio_channel_configuration: Option<Vec<Descriptor>>,
    content_protection: Option<Vec<ContentProtection>>,
    output_protection: Option<Vec<Descriptor>>,
    essential_property: Option<Vec<Descriptor>>,
    supplemental_property: Option<Vec<Descriptor>>,
    inband_event_stream: Option<Vec<EventStream>>,
    switching: Option<Vec<Switching>>,
    random_access: Option<Vec<RandomAccess>>,
    group_lavel: Option<Vec<Label>>,
    lavel: Option<Vec<Label>>,
    producer_reference_time: Option<Vec<ProducerReferenceTime>>,
    content_popularity_rate: Option<Vec<ContentPopularityRate>>,
    resync: Option<Vec<Resync>>,
    accessibility: Option<Vec<Descriptor>>,
    role: Option<Vec<Descriptor>>,
    rating: Option<Vec<Descriptor>>,
    viewpoint: Option<Vec<Descriptor>>,
}

impl InitializationSet {
    pub closed spec fn spec_href(&self) -> Option<String> {
        self.href
    }

    pub closed spec fn spec_actuate(&self) -> Option<XLinkActure> {
        self.actuate
    }

    pub closed spec fn spec_id(&self) -> u32 {
        self.id
    }

    pub closed spec fn spec_in_all_periods(&self) -> Option<bool> {
        self.in_all_periods
    }

    pub closed spec fn spec_content_type(&self) -> Option<ContentType> {
        self.content_type
    }

    pub closed spec fn spec_par(&self) -> Option<Ratio> {
        self.par
    }

    pub closed spec fn spec_max_width(&self) -> Option<u32> {
        self.max_width
    }

    pub closed spec fn spec_max_height(&self) -> Option<u32> {
        self.max_height
    }

    pub closed spec fn spec_max_framerate(&self) -> Option<FrameRate> {
        self.max_framerate
    }

    pub closed spec fn spec_initialization(&self) -> Option<XsAnyURI> {
        self.initialization
    }

    pub closed spec fn spec_profiles(&self) -> Option<ListOfProfiles> {
        self.profiles
    }

    pub closed spec fn spec_width(&self) -> Option<u32> {
        self.width
    }

    pub closed spec fn spec_height(&self) -> Option<u32> {
        self.height
    }

    pub closed spec fn spec_sar(&self) -> Option<Ratio> {
        self.sar
    }

    pub closed spec fn spec_framerate(&self) -> Option<FrameRate> {
        self.framerate
    }

    pub closed spec fn spec_audio_sampling_rate(&self) -> Option<AudioSamplingRate> {
        self.audio_sampling_rate
    }

    pub closed spec fn spec_mime_type(&self) -> Option<String> {
        self.mime_type
    }

    pub closed spec fn spec_segment_profiles(&self) -> Option<ListOfFourCC> {
        self.segment_profiles
    }

    pub closed spec fn spec_codecs(&self) -> Option<Codecs> {
        self.codecs
    }

    pub closed spec fn spec_container_profiles(&self) -> Option<ListOfFourCC> {
        self.container_profiles
    }

    pub closed spec fn spec_maximum_sap_period(&self) -> Option<XsDouble> {
        self.maximum_sap_period
    }

    pub closed spec fn spec_start_with_sap(&self) -> Option<StreamAccessPoint> {
        self.start_with_sap
    }

    pub closed spec fn spec_max_playout_rate(&self) -> Option<XsDouble> {
        self.max_playout_rate
    }

    pub closed spec fn spec_coding_dependency(&self) -> Option<bool> {
        self.coding_dependency
    }

    pub closed spec fn spec_scan_type(&self) -> Option<VideoScan> {
        self.scan_type
    }

    pub closed spec fn spec_selection_priority(&self) -> Option<u32> {
        self.selection_priority
    }

    pub closed spec fn spec_tag(&self) -> Option<Tag> {
        self.tag
    }

    pub closed spec fn spec_frame_packing(&self) -> Option<Vec<Descriptor>> {
        self.frame_packing
    }

    pub closed spec fn spec_audio_channel_configuration(&self) -> Option<Vec<Descriptor>> {
        self.audio_channel_configuration
    }

    pub closed spec fn spec_content_protection(&self) -> Option<Vec<ContentProtection>> {
        self.content_protection
    }

    pub closed spec fn spec_output_protection(&self) -> Option<Vec<Descriptor>> {
        self.output_protection
    }

    pub closed spec fn spec_essential_property(&self) -> Option<Vec<Descriptor>> {
        self.essential_property
    }

    pub closed spec fn spec_supplemental_property(&self) -> Option<Vec<Descriptor>> {
        self.supplemental_property
    }

    pub closed spec fn spec_inband_event_stream(&self) -> Option<Vec<EventStream>> {
        self.inband_event_stream
    }

    pub closed spec fn spec_switching(&self) -> Option<Vec<Switching>> {
        self.switching
    }

    pub closed spec fn spec_random_access(&self) -> Option<Vec<RandomAccess>> {
        self.random_access
    }

    pub closed spec fn spec_group_lavel(&self) -> Option<Vec<Label>> {
        self.group_lavel
    }

    pub closed spec fn spec_lavel(&self) -> Option<Vec<Label>> {
        self.lavel
    }

    pub closed spec fn spec_producer_reference_time(&self) -> Option<Vec<ProducerReferenceTime>> {
        self.producer_reference_time
    }

    pub closed spec fn spec_content_popularity_rate(&self) -> Option<Vec<ContentPopularityRate>> {
        self.content_popularity_rate
    }

    pub closed spec fn spec_resync(&self) -> Option<Vec<Resync>> {
        self.resync
    }

    pub closed spec fn spec_accessibility(&self) -> Option<Vec<Descriptor>> {
        self.accessibility
    }

    pub closed spec fn spec_role(&self) -> Option<Vec<Descriptor>> {
        self.role
    }

    pub closed spec fn spec_rating(&self) -> Option<Vec<Descriptor>> {
        self.rating
    }

    pub closed spec fn spec_viewpoint(&self) -> Option<Vec<Descriptor>> {
        self.viewpoint
    }

    pub fn href(&self) -> (r: &Option<String>)
        ensures
            *r == self.spec_href(),
    {
        &self.href
    }

    pub fn actuate(&self) -> (r: &Option<XLinkActure>)
        ensures
            *r == self.spec_actuate(),
    {
        &self.actuate
    }

    pub fn id(&self) -> (r: &u32)
        ensures
            *r == self.spec_id(),
    {
        &self.id
    }

    pub fn in_all_periods(&self) -> (r: &Option<bool>)
        ensures
            *r == self.spec_in_all_periods(),
    {
        &self.in_all_periods
    }

    pub fn content_type(&self) -> (r: &Option<ContentType>)
        ensures
            *r == self.spec_content_type(),
    {
        &self.content_type
    }

    pub fn par(&self) -> (r: &Option<Ratio>)
        ensures
            *r == self.spec_par(),
    {
        &self.par
    }

    pub fn max_width(&self) -> (r: &Option<u32>)
        ensures
            *r == self.spec_max_width(),
    {
        &self.max_width
    }

    pub fn max_height(&self) -> (r: &Option<u32>)
        ensures
            *r == self.spec_max_height(),
    {
        &self.max_height
    }

    pub fn max_framerate(&self) -> (r: &Option<FrameRate>)
        ensures
            *r == self.spec_max_framerate(),
    {
        &self.max_framerate
    }

    pub fn initialization(&self) -> (r: &Option<XsAnyURI>)
        ensures
            *r == self.spec_initialization(),
    {
        &self.initialization
    }

    pub fn profiles(&self) -> (r: &Option<ListOfProfiles>)
        ensures
            *r == self.spec_profiles(),
    {
        &self.profiles
    }

    pub fn width(&self) -> (r: &Option<u32>)
        ensures
            *r == self.spec_width(),
    {
        &self.width
    }

    pub fn height(&self) -> (r: &Option<u32>)
        ensures
            *r == self.spec_height(),
    {
        &self.height
    }

    pub fn sar(&self) -> (r: &Option<Ratio>)
        ensures
            *r == self.spec_sar(),
    {
        &self.sar
    }

    pub fn framerate(&self) -> (r: &Option<FrameRate>)
        ensures
            *r == self.spec_framerate(),
    {
        &self.framerate
    }

    pub fn audio_sampling_rate(&self) -> (r: &Option<AudioSamplingRate>)
        ensures
            *r == self.spec_audio_sampling_rate(),
    {
        &self.audio_sampling_rate
    }

    pub fn mime_type(&self) -> (r: &Option<String>)
        ensures
            *r == self.spec_mime_type(),
    {
        &self.mime_type
    }

    pub fn segment_profiles(&self) -> (r: &Option<ListOfFourCC>)
        ensures
            *r == self.spec_segment_profiles(),
    {
        &self.segment_profiles
    }

    pub fn codecs(&self) -> (r: &Option<Codecs>)
        ensures
            *r == self.spec_codecs(),
    {
        &self.codecs
    }

    pub fn container_profiles(&self) -> (r: &Option<ListOfFourCC>)
        ensures
            *r == self.spec_container_profiles(),
    {
        &self.container_profiles
    }

    pub fn maximum_sap_period(&self) -> (r: &Option<XsDouble>)
        ensures
            *r == self.spec_maximum_sap_period(),
    {
        &self.maximum_sap_period
    }

    pub fn start_with_sap(&self) -> (r: &Option<StreamAccessPoint>)
        ensures
            *r == self.spec_start_with_sap(),
    {
        &self.start_with_sap
    }

    pub fn max_playout_rate(&self) -> (r: &Option<XsDouble>)
        ensures
            *r == self.spec_max_playout_rate(),
    {
        &self.max_playout_rate
    }

    pub fn coding_dependency(&self) -> (r: &Option<bool>)
        ensures
            *r == self.spec_coding_dependency(),
    {
        &self.coding_dependency
    }

    pub fn scan_type(&self) -> (r: &Option<VideoScan>)
        ensures
            *r == self.spec_scan_type(),
    {
        &self.scan_type
    }

    pub fn selection_priority(&self) -> (r: &Option<u32>)
        ensures
            *r == self.spec_selection_priority(),
    {
        &self.selection_priority
    }

    pub fn tag(&self) -> (r: &Option<Tag>)
        ensures
            *r == self.spec_tag(),
    {
        &self.tag
    }

    pub fn frame_packing(&self) -> (r: &Option<Vec<Descriptor>>)
        ensures
            *r == self.spec_frame_packing(),
    {
        &self.frame_packing
    }

    pub fn audio_channel_configuration(&self) -> (r: &Option<Vec<Descriptor>>)
        ensures
            *r == self.spec_audio_channel_configuration(),
    {
        &self.audio_channel_configuration
    }

    pub fn content_protection(&self) -> (r: &Option<Vec<ContentProtection>>)
        ensures
            *r == self.spec_content_protection(),
    {
        &self.content_protection
    }

    pub fn output_protection(&self) -> (r: &Option<Vec<Descriptor>>)
        ensures
            *r == self.spec_output_protection(),
    {
        &self.output_protection
    }

    pub fn essential_property(&self) -> (r: &Option<Vec<Descriptor>>)
        ensures
            *r == self.spec_essential_property(),
    {
        &self.essential_property
    }

    pub fn supplemental_property(&self) -> (r: &Option<Vec<Descriptor>>)
        ensures
            *r == self.spec_supplemental_property(),
    {
        &self.supplemental_property
    }

    pub fn inband_event_stream(&self) -> (r: &Option<Vec<EventStream>>)
        ensures
            *r == self.spec_inband_event_stream(),
    {
        &self.inband_event_stream
    }

    pub fn switching(&self) -> (r: &Option<Vec<Switching>>)
        ensures
            *r == self.spec_switching(),
    {
        &self.switching
    }

    pub fn random_access(&self) -> (r: &Option<Vec<RandomAccess>>)
        ensures
            *r == self.spec_random_access(),
    {
        &self.random_access
    }

    pub fn group_lavel(&self) -> (r: &Option<Vec<Label>>)
        ensures
            *r == self.spec_group_lavel(),
    {
        &self.group_lavel
    }

    pub fn lavel(&self) -> (r: &Option<Vec<Label>>)
        ensures
            *r == self.spec_lavel(),
    {
        &self.lavel
    }

    pub fn producer_reference_time(&self) -> (r: &Option<Vec<ProducerReferenceTime>>)
        ensures
            *r == self.spec_producer_reference_time(),
    {
        &self.producer_reference_time
    }

    pub fn content_popularity_rate(&self) -> (r: &Option<Vec<ContentPopularityRate>>)
        ensures
            *r == self.spec_content_popularity_rate(),
    {
        &self.content_popularity_rate
    }

    pub fn resync(&self) -> (r: &Option<Vec<Resync>>)
        ensures
            *r == self.spec_resync(),
    {
        &self.resync
    }

    pub fn accessibility(&self) -> (r: &Option<Vec<Descriptor>>)
        ensures
            *r == self.spec_accessibility(),
    {
        &self.accessibility
    }

    pub fn role(&self) -> (r: &Option<Vec<Descriptor>>)
        ensures
            *r == self.spec_role(),
    {
        &self.role
    }

    pub fn rating(&self) -> (r: &Option<Vec<Descriptor>>)
        ensures
            *r == self.spec_rating(),
    {
        &self.rating
    }

    pub fn viewpoint(&self) -> (r: &Option<Vec<Descriptor>>)
        ensures
            *r == self.spec_viewpoint(),
    {
        &self.viewpoint
    }
}

/// Accumulates the fields of a [`InitializationSet`]; [`InitializationSetBuilder::build`] checks
/// them.
#[derive(Debug, Default, Clone)]
pub struct InitializationSetBuilder {
    pub href: Option<String>,
    pub actuate: Option<XLinkActure>,
    pub id: Option<u32>,
    pub in_all_periods: Option<bool>,
    pub content_type: Option<ContentType>,
    pub par: Option<Ratio>,
    pub max_width: Option<u32>,
    pub max_height: Option<u32>,
    pub max_framerate: Option<FrameRate>,
    pub initialization: Option<XsAnyURI>,
    pub profiles: Option<ListOfProfiles>,
    pub width: Option<u32>,
    pub height: Option<u32>,
    pub sar: Option<Ratio>,
    pub framerate: Option<FrameRate>,
    pub audio_sampling_rate: Option<AudioSamplingRate>,
    pub mime_type: Option<String>,
    pub segment_profiles: Option<ListOfFourCC>,
    pub codecs: Option<Codecs>,
    pub container_profiles: Option<ListOfFourCC>,
    pub maximum_sap_period: Option<XsDouble>,
    pub start_with_sap: Option<StreamAccessPoint>,
    pub max_playout_rate: Option<XsDouble>,
    pub coding_dependency: Option<bool>,
    pub scan_type: Option<VideoScan>,
    pub selection_priority: Option<u32>,
    pub tag: Option<Tag>,
    pub frame_packing: Option<Vec<Descriptor>>,
    pub audio_channel_configuration: Option<Vec<Descriptor>>,
    pub content_protection: Option<Vec<ContentProtection>>,
    pub output_protection: Option<Vec<Descriptor>>,
    pub essential_property: Option<Vec<Descriptor>>,
    pub supplemental_property: Option<Vec<Descriptor>>,
    pub inband_event_stream: Option<Vec<EventStream>>,
    pub switching: Option<Vec<Switching>>,
    pub random_access: Option<Vec<RandomAccess>>,
    pub group_lavel: Option<Vec<Label>>,
    pub lavel: Option<Vec<Label>>,
    pub producer_reference_time: Option<Vec<ProducerReferenceTime>>,
    pub content_popularity_rate: Option<Vec<ContentPopularityRate>>,
    pub resync: Option<Vec<Resync>>,
    pub accessibility: Option<Vec<Descriptor>>,
    pub role: Option<Vec<Descriptor>>,
    pub rating: Option<Vec<Descriptor>>,
    pub viewpoint: Option<Vec<Descriptor>>,
}

impl InitializationSetBuilder {
    pub fn href(self, v: &str) -> (r: Self)
        ensures
            (r.href matches Some(x) && x@ == v@),
            r == (InitializationSetBuilder { href: r.href, ..self }),
    {
        InitializationSetBuilder { href: Some(v.to_owned()), ..self }
    }

    pub fn actuate(self, v: XLinkActure) -> (r: Self)
        ensures
            r == (InitializationSetBuilder { actuate: Some(v), ..self }),
    {
        InitializationSetBuilder { actuate: Some(v), ..self }
    }

    pub fn id(self, v: u32) -> (r: Self)
        ensures
            r == (InitializationSetBuilder { id: Some(v), ..self }),
    {
        InitializationSetBuilder { id: Some(v), ..self }
    }

    pub fn in_all_periods(self, v: bool) -> (r: Self)
        ensures
            r == (InitializationSetBuilder { in_all_periods: Some(v), ..self }),
    {
        InitializationSetBuilder { in_all_periods: Some(v), ..self }
    }

    pub fn content_type(self, v: ContentType) -> (r: Self)
        ensures
            r == (InitializationSetBuilder { content_type: Some(v), ..self }),
    {
        InitializationSetBuilder { content_type: Some(v), ..self }
    }

    pub fn par(self, v: Ratio) -> (r: Self)
        ensures
            r == (InitializationSetBuilder { par: Some(v), ..self }),
    {
        InitializationSetBuilder { par: Some(v), ..self }
    }

    pub fn max_width(self, v: u32) -> (r: Self)
        ensures
            r == (InitializationSetBuilder { max_width: Some(v), ..self }),
    {
        InitializationSetBuilder { max_width: Some(v), ..self }
    }

    pub fn max_height(self, v: u32) -> (r: Self)
        ensures
            r == (InitializationSetBuilder { max_height: Some(v), ..self }),
    {
        InitializationSetBuilder { max_height: Some(v), ..self }
    }

    pub fn max_framerate(self, v: FrameRate) -> (r: Self)
        ensures
            r == (InitializationSetBuilder { max_framerate: Some(v), ..self }),
    {
        InitializationSetBuilder { max_framerate: Some(v), ..self }
    }

    pub fn initialization(self, v: &str) -> (r: Self)
        ensures
            (r.initialization matches Some(x) && x.view() == v@),
            r == (InitializationSetBuilder { initialization: r.initialization, ..self }),
    {
        InitializationSetBuilder { initialization: Some(XsAnyURI::from(v)), ..self }
    }

    pub fn profiles(self, v: Vec<Profile>) -> (r: Self)
        ensures
            (r.profiles matches Some(x) && x.view() == v@.map_values(|p: Profile| p.view())),
            r == (InitializationSetBuilder { profiles: r.profiles, ..self }),
    {
        InitializationSetBuilder { profiles: Some(ListOfProfiles::from(v)), ..self }
    }

    pub fn width(self, v: u32) -> (r: Self)
        ensures
            r == (InitializationSetBuilder { width: Some(v), ..self }),
    {
        InitializationSetBuilder { width: Some(v), ..self }
    }

    pub fn height(self, v: u32) -> (r: Self)
        ensures
            r == (InitializationSetBuilder { height: Some(v), ..self }),
    {
        InitializationSetBuilder { height: Some(v), ..self }
    }

    pub fn sar(self, v: Ratio) -> (r: Self)
        ensures
            r == (InitializationSetBuilder { sar: Some(v), ..self }),
    {
        InitializationSetBuilder { sar: Some(v), ..self }
    }

    pub fn framerate(self, v: FrameRate) -> (r: Self)
        ensures
            r == (InitializationSetBuilder { framerate: Some(v), ..self }),
    {
        InitializationSetBuilder { framerate: Some(v), ..self }
    }

    pub fn audio_sampling_rate(self, v: AudioSamplingRate) -> (r: Self)
        ensures
            r == (InitializationSetBuilder { audio_sampling_rate: Some(v), ..self }),
    {
        InitializationSetBuilder { audio_sampling_rate: Some(v), ..self }
    }

    pub fn mime_type(self, v: &str) -> (r: Self)
        ensures
            (r.mime_type matches Some(x) && x@ == v@),
            r == (InitializationSetBuilder { mime_type: r.mime_type, ..self }),
    {
        InitializationSetBuilder { mime_type: Some(v.to_owned()), ..self }
    }

    pub fn segment_profiles(self, v: ListOfFourCC) -> (r: Self)
        ensures
            r == (InitializationSetBuilder { segment_profiles: Some(v), ..self }),
    {
        InitializationSetBuilder { segment_profiles: Some(v), ..self }
    }

    pub fn codecs(self, v: Codecs) -> (r: Self)
        ensures
            r == (InitializationSetBuilder { codecs: Some(v), ..self }),
    {
        InitializationSetBuilder { codecs: Some(v), ..self }
    }

    pub fn container_profiles(self, v: ListOfFourCC) -> (r: Self)
        ensures
            r == (InitializationSetBuilder { container_profiles: Some(v), ..self }),
    {
        InitializationSetBuilder { container_profiles: Some(v), ..self }
    }

    pub fn maximum_sap_period(self, v: XsDouble) -> (r: Self)
        ensures
            r == (InitializationSetBuilder { maximum_sap_period: Some(v), ..self }),
    {
        InitializationSetBuilder { maximum_sap_period: Some(v), ..self }
    }

    pub fn start_with_sap(self, v: StreamAccessPoint) -> (r: Self)
        ensures
            r == (InitializationSetBuilder { start_with_sap: Some(v), ..self }),
    {
        InitializationSetBuilder { start_with_sap: Some(v), ..self }
    }

    pub fn max_playout_rate(self, v: XsDouble) -> (r: Self)
        ensures
            r == (InitializationSetBuilder { max_playout_rate: Some(v), ..self }),
    {
        InitializationSetBuilder { max_playout_rate: Some(v), ..self }
    }

    pub fn coding_dependency(self, v: bool) -> (r: Self)
        ensures
            r == (InitializationSetBuilder { coding_dependency: Some(v), ..self }),
    {
        InitializationSetBuilder { coding_dependency: Some(v), ..self }
    }

    pub fn scan_type(self, v: VideoScan) -> (r: Self)
        ensures
            r == (InitializationSetBuilder { scan_type: Some(v), ..self }),
    {
        InitializationSetBuilder { scan_type: Some(v), ..self }
    }

    pub fn selection_priority(self, v: u32) -> (r: Self)
        ensures
            r == (InitializationSetBuilder { selection_priority: Some(v), ..self }),
    {
        InitializationSetBuilder { selection_priority: Some(v), ..self }
    }

    pub fn tag(self, v: &str) -> (r: Self)
        ensures
            (r.tag matches Some(x) && x.view() == v@),
            r == (InitializationSetBuilder { tag: r.tag, ..self }),
    {
        InitializationSetBuilder { tag: Some(Tag::from(v)), ..self }
    }

    pub fn frame_packing(self, v: Vec<Descriptor>) -> (r: Self)
        ensures
            r == (InitializationSetBuilder { frame_packing: Some(v), ..self }),
    {
        InitializationSetBuilder { frame_packing: Some(v), ..self }
    }

    pub fn audio_channel_configuration(self, v: Vec<Descriptor>) -> (r: Self)
        ensures
            r == (InitializationSetBuilder { audio_channel_configuration: Some(v), ..self }),
    {
        InitializationSetBuilder { audio_channel_configuration: Some(v), ..self }
    }

    pub fn content_protection(self, v: Vec<ContentProtection>) -> (r: Self)
        ensures
            r == (InitializationSetBuilder { content_protection: Some(v), ..self }),
    {
        InitializationSetBuilder { content_protection: Some(v), ..self }
    }

    pub fn output_protection(self, v: Vec<Descriptor>) -> (r: Self)
        ensures
            r == (InitializationSetBuilder { output_protection: Some(v), ..self }),
    {
        InitializationSetBuilder { output_protection: Some(v), ..self }
    }

    pub fn essential_property(self, v: Vec<Descriptor>) -> (r: Self)
        ensures
            r == (InitializationSetBuilder { essential_property: Some(v), ..self }),
    {
        InitializationSetBuilder { essential_property: Some(v), ..self }
    }

    pub fn supplemental_property(self, v: Vec<Descriptor>) -> (r: Self)
        ensures
            r == (InitializationSetBuilder { supplemental_property: Some(v), ..self }),
    {
        InitializationSetBuilder { supplemental_property: Some(v), ..self }
    }

    pub fn inband_event_stream(self, v: Vec<EventStream>) -> (r: Self)
        ensures
            r == (InitializationSetBuilder { inband_event_stream: Some(v), ..self }),
    {
        InitializationSetBuilder { inband_event_stream: Some(v), ..self }
    }

    pub fn switching(self, v: Vec<Switching>) -> (r: Self)
        ensures
            r == (InitializationSetBuilder { switching: Some(v), ..self }),
    {
        InitializationSetBuilder { switching: Some(v), ..self }
    }

    pub fn random_access(self, v: Vec<RandomAccess>) -> (r: Self)
        ensures
            r == (InitializationSetBuilder { random_access: Some(v), ..self }),
    {
        InitializationSetBuilder { random_access: Some(v), ..self }
    }

    pub fn group_lavel(self, v: Vec<Label>) -> (r: Self)
        ensures
            r == (InitializationSetBuilder { group_lavel: Some(v), ..self }),
    {
        InitializationSetBuilder { group_lavel: Some(v), ..self }
    }

    pub fn lavel(self, v: Vec<Label>) -> (r: Self)
        ensures
            r == (InitializationSetBuilder { lavel: Some(v), ..self }),
    {
        InitializationSetBuilder { lavel: Some(v), ..self }
    }

    pub fn producer_reference_time(self, v: Vec<ProducerReferenceTime>) -> (r: Self)
        ensures
            r == (InitializationSetBuilder { producer_reference_time: Some(v), ..self }),
    {
        InitializationSetBuilder { producer_reference_time: Some(v), ..self }
    }

    pub fn content_popularity_rate(self, v: Vec<ContentPopularityRate>) -> (r: Self)
        ensures
            r == (InitializationSetBuilder { content_popularity_rate: Some(v), ..self }),
    {
        InitializationSetBuilder { content_popularity_rate: Some(v), ..self }
    }

    pub fn resync(self, v: Vec<Resync>) -> (r: Self)
        ensures
            r == (InitializationSetBuilder { resync: Some(v), ..self }),
    {
        InitializationSetBuilder { resync: Some(v), ..self }
    }

    pub fn accessibility(self, v: Vec<Descriptor>) -> (r: Self)
        ensures
            r == (InitializationSetBuilder { accessibility: Some(v), ..self }),
    {
        InitializationSetBuilder { accessibility: Some(v), ..self }
    }

    pub fn role(self, v: Vec<Descriptor>) -> (r: Self)
        ensures
            r == (InitializationSetBuilder { role: Some(v), ..self }),
    {
        InitializationSetBuilder { role: Some(v), ..self }
    }

    pub fn rating(self, v: Vec<Descriptor>) -> (r: Self)
        ensures
            r == (InitializationSetBuilder { rating: Some(v), ..self }),
    {
        InitializationSetBuilder { rating: Some(v), ..self }
    }

    pub fn viewpoint(self, v: Vec<Descriptor>) -> (r: Self)
        ensures
            r == (InitializationSetBuilder { viewpoint: Some(v), ..self }),
    {
        InitializationSetBuilder { viewpoint: Some(v), ..self }
    }

    /// Checks the rules and makes the [`InitializationSet`].
    pub fn build(self) -> (r: Result<InitializationSet, MpdError>)
        ensures
            r is Ok,
            r matches Ok(e) ==> e.spec_href() == self.href,
            r matches Ok(e) ==> e.spec_actuate() == self.actuate,
            r matches Ok(e) ==> (self.id is Some ==> self.id == Some(e.spec_id())),
            r matches Ok(e) ==> (self.id is None ==> e.spec_id() == 0),
            r matches Ok(e) ==> e.spec_in_all_periods() == self.in_all_periods,
            r matches Ok(e) ==> e.spec_content_type() == self.content_type,
            r matches Ok(e) ==> e.spec_par() == self.par,
            r matches Ok(e) ==> e.spec_max_width() == self.max_width,
            r matches Ok(e) ==> e.spec_max_height() == self.max_height,
            r matches Ok(e) ==> e.spec_max_framerate() == self.max_framerate,
            r matches Ok(e) ==> e.spec_initialization() == self.initialization,
            r matches Ok(e) ==> e.spec_profiles() == self.profiles,
            r matches Ok(e) ==> e.spec_width() == self.width,
            r matches Ok(e) ==> e.spec_height() == self.height,
            r matches Ok(e) ==> e.spec_sar() == self.sar,
            r matches Ok(e) ==> e.spec_framerate() == self.framerate,
            r matches Ok(e) ==> e.spec_audio_sampling_rate() == self.audio_sampling_rate,
            r matches Ok(e) ==> e.spec_mime_type() == self.mime_type,
            r matches Ok(e) ==> e.spec_segment_profiles() == self.segment_profiles,
            r matches Ok(e) ==> e.spec_codecs() == self.codecs,
            r matches Ok(e) ==> e.spec_container_profiles() == self.container_profiles,
            r matches Ok(e) ==> e.spec_maximum_sap_period() == self.maximum_sap_period,
            r matches Ok(e) ==> e.spec_start_with_sap() == self.start_with_sap,
            r matches Ok(e) ==> e.spec_max_playout_rate() == self.max_playout_rate,
            r matches Ok(e) ==> e.spec_coding_dependency() == self.coding_dependency,
            r matches Ok(e) ==> e.spec_scan_type() == self.scan_type,
            r matches Ok(e) ==> e.spec_selection_priority() == self.selection_priority,
            r matches Ok(e) ==> e.spec_tag() == self.tag,
            r matches Ok(e) ==> e.spec_frame_packing() == self.frame_packing,
            r matches Ok(e) ==>
                e.spec_audio_channel_configuration() == self.audio_channel_configuration,
            r matches Ok(e) ==> e.spec_content_protection() == self.content_protection,
            r matches Ok(e) ==> e.spec_output_protection() == self.output_protection,
            r matches Ok(e) ==> e.spec_essential_property() == self.essential_property,
            r matches Ok(e) ==> e.spec_supplemental_property() == self.supplemental_property,
            r matches Ok(e) ==> e.spec_inband_event_stream() == self.inband_event_stream,
            r matches Ok(e) ==> e.spec_switching() == self.switching,
            r matches Ok(e) ==> e.spec_random_access() == self.random_access,
            r matches Ok(e) ==> e.spec_group_lavel() == self.group_lavel,
            r matches Ok(e) ==> e.spec_lavel() == self.lavel,
            r matches Ok(e) ==> e.spec_producer_reference_time() == self.producer_reference_time,
            r matches Ok(e) ==> e.spec_content_popularity_rate() == self.content_popularity_rate,
            r matches Ok(e) ==> e.spec_resync() == self.resync,
            r matches Ok(e) ==> e.spec_accessibility() == self.accessibility,
            r matches Ok(e) ==> e.spec_role() == self.role,
            r matches Ok(e) ==> e.spec_rating() == self.rating,
            r matches Ok(e) ==> e.spec_viewpoint() == self.viewpoint,
    {
        let id = match self.id {
            Some(v) => v,
            None => 0,
        };
        Ok(InitializationSet {
            href: self.href,
            actuate: self.actuate,
            id,
            in_all_periods: self.in_all_periods,
            content_type: self.content_type,
            par: self.par,
            max_width: self.max_width,
            max_height: self.max_height,
            max_framerate: self.max_framerate,
            initialization: self.initialization,
            profiles: self.profiles,
            width: self.width,
            height: self.height,
            sar: self.sar,
            framerate: self.framerate,
            audio_sampling_rate: self.audio_sampling_rate,
            mime_type: self.mime_type,
            segment_profiles: self.segment_profiles,
            codecs: self.codecs,
            container_profiles: self.container_profiles,
            maximum_sap_period: self.maximum_sap_period,
            start_with_sap: self.start_with_sap,
            max_playout_rate: self.max_playout_rate,
            coding_dependency: self.coding_dependency,
            scan_type: self.scan_type,
            selection_priority: self.selection_priority,
            tag: self.tag,
            frame_packing: self.frame_packing,
            audio_channel_configuration: self.audio_channel_configuration,
            content_protection: self.content_protection,
            output_protection: self.output_protection,
            essential_property: self.essential_property,
            supplemental_property: self.supplemental_property,
            inband_event_stream: self.inband_event_stream,
            switching: self.switching,
            random_access: self.random_access,
            group_lavel: self.group_lavel,
            lavel: self.lavel,
            producer_reference_time: self.producer_reference_time,
            content_popularity_rate: self.content_popularity_rate,
            resync: self.resync,
            accessibility: self.accessibility,
            role: self.role,
            rating: self.rating,
            viewpoint: self.viewpoint,
        })
    }
}

/// Unsigned integer vector with an identifier.
///
/// Built only through [`UIntVWithIDBuilder`], which checks its rules.
#[derive(Debug, Clone, PartialEq, Eq)]
pub struct UIntVWithID {
    base: UIntVector,
    id: u32,
    profiles: Option<Vec<ListOfProfiles>>,
    content_type: Option<ContentType>,
}

impl UIntVWithID {
    pub closed spec fn spec_base(&self) -> UIntVector {
        self.base
    }

    pub closed spec fn spec_id(&self) -> u32 {
        self.id
    }

    pub closed spec fn spec_profiles(&self) -> Option<Vec<ListOfProfiles>> {
        self.profiles
    }

    pub closed spec fn spec_content_type(&self) -> Option<ContentType> {
        self.content_type
    }

    pub fn base(&self) -> (r: &UIntVector)
        ensures
            *r == self.spec_base(),
    {
        &self.base
    }

    pub fn id(&self) -> (r: &u32)
        ensures
            *r == self.spec_id(),
    {
        &self.id
    }

    pub fn profiles(&self) -> (r: &Option<Vec<ListOfProfiles>>)
        ensures
            *r == self.spec_profiles(),
    {
        &self.profiles
    }

    pub fn content_type(&self) -> (r: &Option<ContentType>)
        ensures
            *r == self.spec_content_type(),
    {
        &self.content_type
    }
}

/// Accumulates the fields of a [`UIntVWithID`]; [`UIntVWithIDBuilder::build`] checks them.
#[derive(Debug, Default, Clone)]
pub struct UIntVWithIDBuilder {
    pub base: Option<UIntVector>,
    pub id: Option<u32>,
    pub profiles: Option<Vec<ListOfProfiles>>,
    pub content_type: Option<ContentType>,
}

impl UIntVWithIDBuilder {
    /// Whether the fields meet the rules of a [`UIntVWithID`].
    pub open spec fn meets_rules(&self) -> bool {
        self.first_broken_rule() is None
    }

    pub fn base(self, v: UIntVector) -> (r: Self)
        ensures
            r == (UIntVWithIDBuilder { base: Some(v), ..self }),
    {
        UIntVWithIDBuilder { base: Some(v), ..self }
    }

    pub fn id(self, v: u32) -> (r: Self)
        ensures
            r == (UIntVWithIDBuilder { id: Some(v), ..self }),
    {
        UIntVWithIDBuilder { id: Some(v), ..self }
    }

    pub fn profiles(self, v: Vec<ListOfProfiles>) -> (r: Self)
        ensures
            r == (UIntVWithIDBuilder { profiles: Some(v), ..self }),
    {
        UIntVWithIDBuilder { profiles: Some(v), ..self }
    }

    pub fn content_type(self, v: ContentType) -> (r: Self)
        ensures
            r == (UIntVWithIDBuilder { content_type: Some(v), ..self }),
    {
        UIntVWithIDBuilder { content_type: Some(v), ..self }
    }

    /// Checks the rules and makes the [`UIntVWithID`].
    pub fn build(self) -> (r: Result<UIntVWithID, MpdError>)
        ensures
            r is Ok <==> self.meets_rules(),
            self.first_broken_rule() matches Some(e) ==> r == Err::<UIntVWithID, MpdError>(e),
            r matches Ok(e) ==> (self.base is Some ==> self.base == Some(e.spec_base())),
            r matches Ok(e) ==> self.id == Some(e.spec_id()),
            r matches Ok(e) ==> e.spec_profiles() == self.profiles,
            r matches Ok(e) ==> e.spec_content_type() == self.content_type,
    {
        if let Err(e) = self.validate() {
            return Err(e);
        }
        let base = match self.base {
            Some(v) => v,
            None => WhitespaceSeparatedList::from(Vec::new()),
        };
        let id = match self.id {
            Some(v) => v,
            None => return Err(MpdError::MissingRequiredField("id")),
        };
        Ok(UIntVWithID {
            base,
            id,
            profiles: self.profiles,
            content_type: self.content_type,
        })
    }
}

impl NeedValidater for UIntVWithIDBuilder {
    open spec fn first_broken_rule(&self) -> Option<MpdError> {
        if self.id is None {
            Some(MpdError::MissingRequiredField("id"))
        } else {
            None
        }
    }

    fn validate(&self) -> (r: Result<(), MpdError>) {
        if self.id.is_none() {
            return Err(MpdError::MissingRequiredField("id"));
        }
        Ok(())
    }
}

/// Metrics range.
#[derive(Debug, Clone, PartialEq, Eq, Default)]
pub struct MetricsRange {
    start_time: Option<XsDuration>,
    duration: Option<XsDuration>,
}

impl MetricsRange {
    pub closed spec fn spec_start_time(&self) -> Option<XsDuration> {
        self.start_time
    }

    pub closed spec fn spec_duration(&self) -> Option<XsDuration> {
        self.duration
    }

    pub fn start_time(&self) -> (r: &Option<XsDuration>)
        ensures
            *r == self.spec_start_time(),
    {
        &self.start_time
    }

    pub fn duration(&self) -> (r: &Option<XsDuration>)
        ensures
            *r == self.spec_duration(),
    {
        &self.duration
    }
}

/// Accumulates the fields of a [`MetricsRange`]; [`MetricsRangeBuilder::build`] checks them.
#[derive(Debug, Default, Clone)]
pub struct MetricsRangeBuilder {
    pub start_time: Option<XsDuration>,
    pub duration: Option<XsDuration>,
}

impl MetricsRangeBuilder {
    pub fn start_time(self, v: XsDuration) -> (r: Self)
        ensures
            r == (MetricsRangeBuilder { start_time: Some(v), ..self }),
    {
        MetricsRangeBuilder { start_time: Some(v), ..self }
    }

    pub fn duration(self, v: XsDuration) -> (r: Self)
        ensures
            r == (MetricsRangeBuilder { duration: Some(v), ..self }),
    {
        MetricsRangeBuilder { duration: Some(v), ..self }
    }

    /// Checks the rules and makes the [`MetricsRange`].
    pub fn build(self) -> (r: Result<MetricsRange, MpdError>)
        ensures
            r is Ok,
            r matches Ok(e) ==> e.spec_start_time() == self.start_time,
            r matches Ok(e) ==> e.spec_duration() == self.duration,
    {
        Ok(MetricsRange {
            start_time: self.start_time,
            duration: self.duration,
        })
    }
}

/// Metrics.
///
/// Built only through [`MetricsBuilder`], which checks its rules.
#[derive(Debug, Clone, PartialEq, Eq)]
pub struct Metrics {
    metrics: String,
    range: Option<Vec<MetricsRange>>,
    reporting: Vec<Descriptor>,
}

impl Metrics {
    pub closed spec fn spec_metrics(&self) -> String {
        self.metrics
    }

    pub closed spec fn spec_range(&self) -> Option<Vec<MetricsRange>> {
        self.range
    }

    pub closed spec fn spec_reporting(&self) -> Vec<Descriptor> {
        self.reporting
    }

    pub fn metrics(&self) -> (r: &String)
        ensures
            *r == self.spec_metrics(),
    {
        &self.metrics
    }

    pub fn range(&self) -> (r: &Option<Vec<MetricsRange>>)
        ensures
            *r == self.spec_range(),
    {
        &self.range
    }

    pub fn reporting(&self) -> (r: &Vec<Descriptor>)
        ensures
            *r == self.spec_reporting(),
    {
        &self.reporting
    }
}

/// Accumulates the fields of a [`Metrics`]; [`MetricsBuilder::build`] checks them.
#[derive(Debug, Default, Clone)]
pub struct MetricsBuilder {
    pub metrics: Option<String>,
    pub range: Option<Vec<MetricsRange>>,
    pub reporting: Option<Vec<Descriptor>>,
}

impl MetricsBuilder {
    /// Whether the fields meet the rules of a [`Metrics`].
    pub open spec fn meets_rules(&self) -> bool {
        self.first_broken_rule() is None
    }

    pub fn metrics(self, v: &str) -> (r: Self)
        ensures
            (r.metrics matches Some(x) && x@ == v@),
            r == (MetricsBuilder { metrics: r.metrics, ..self }),
    {
        MetricsBuilder { metrics: Some(v.to_owned()), ..self }
    }

    pub fn range(self, v: Vec<MetricsRange>) -> (r: Self)
        ensures
            r == (MetricsBuilder { range: Some(v), ..self }),
    {
        MetricsBuilder { range: Some(v), ..self }
    }

    pub fn reporting(self, v: Vec<Descriptor>) -> (r: Self)
        ensures
            r == (MetricsBuilder { reporting: Some(v), ..self }),
    {
        MetricsBuilder { reporting: Some(v), ..self }
    }

    /// Checks the rules and makes the [`Metrics`].
    pub fn build(self) -> (r: Result<Metrics, MpdError>)
        ensures
            r is Ok <==> self.meets_rules(),
            self.first_broken_rule() matches Some(e) ==> r == Err::<Metrics, MpdError>(e),
            r matches Ok(e) ==> self.metrics == Some(e.spec_metrics()),
            r matches Ok(e) ==> e.spec_range() == self.range,
            r matches Ok(e) ==> self.reporting == Some(e.spec_reporting()),
    {
        if let Err(e) = self.validate() {
            return Err(e);
        }
        let metrics = match self.metrics {
            Some(v) => v,
            None => return Err(MpdError::MissingRequiredField("metrics")),
        };
        let reporting = match self.reporting {
            Some(v) => v,
            None => return Err(MpdError::MissingRequiredField("reporting")),
        };
        Ok(Metrics {
            metrics,
            range: self.range,
            reporting,
        })
    }
}

impl NeedValidater for MetricsBuilder {
    open spec fn first_broken_rule(&self) -> Option<MpdError> {
        if self.metrics is None {
            Some(MpdError::MissingRequiredField("metrics"))
        } else if !(self.reporting matches Some(v) && v@.len() > 0) {
            Some(MpdError::EmptyRequiredCollection("reporting"))
        } else {
            None
        }
    }

    fn validate(&self) -> (r: Result<(), MpdError>) {
        if self.metrics.is_none() {
            return Err(MpdError::MissingRequiredField("metrics"));
        }
        if match &self.reporting { Some(v) => v.len() == 0, None => true } {
            return Err(MpdError::EmptyRequiredCollection("reporting"));
        }
        Ok(())
    }
}

/// Leap second information.
///
/// Built only through [`LeapSecondInformationBuilder`], which checks its rules.
#[derive(Debug, Clone, PartialEq, Eq)]
pub struct LeapSecondInformation {
    availability_start_leap_offset: i32,
    next_availability_start_leap_offset: Option<i32>,
    next_leap_change_time: Option<XsDateTime>,
}

impl LeapSecondInformation {
    pub closed spec fn spec_availability_start_leap_offset(&self) -> i32 {
        self.availability_start_leap_offset
    }

    pub closed spec fn spec_next_availability_start_leap_offset(&self) -> Option<i32> {
        self.next_availability_start_leap_offset
    }

    pub closed spec fn spec_next_leap_change_time(&self) -> Option<XsDateTime> {
        self.next_leap_change_time
    }

    pub fn availability_start_leap_offset(&self) -> (r: &i32)
        ensures
            *r == self.spec_availability_start_leap_offset(),
    {
        &self.availability_start_leap_offset
    }

    pub fn next_availability_start_leap_offset(&self) -> (r: &Option<i32>)
        ensures
            *r == self.spec_next_availability_start_leap_offset(),
    {
        &self.next_availability_start_leap_offset
    }

    pub fn next_leap_change_time(&self) -> (r: &Option<XsDateTime>)
        ensures
            *r == self.spec_next_leap_change_time(),
    {
        &self.next_leap_change_time
    }
}

/// Accumulates the fields of a [`LeapSecondInformation`]; [`LeapSecondInformationBuilder::build`]
/// checks them.
#[derive(Debug, Default, Clone)]
pub struct LeapSecondInformationBuilder {
    pub availability_start_leap_offset: Option<i32>,
    pub next_availability_start_leap_offset: Option<i32>,
    pub next_leap_change_time: Option<XsDateTime>,
}

impl LeapSecondInformationBuilder {
    /// Whether the fields meet the rules of a [`LeapSecondInformation`].
    pub open spec fn meets_rules(&self) -> bool {
        self.first_broken_rule() is None
    }

    pub fn availability_start_leap_offset(self, v: i32) -> (r: Self)
        ensures
            r == (LeapSecondInformationBuilder { availability_start_leap_offset: Some(v), ..self }),
    {
        LeapSecondInformationBuilder { availability_start_leap_offset: Some(v), ..self }
    }

    pub fn next_availability_start_leap_offset(self, v: i32) -> (r: Self)
        ensures
            r == (LeapSecondInformationBuilder { next_availability_start_leap_offset: Some(v), ..self }),
    {
        LeapSecondInformationBuilder { next_availability_start_leap_offset: Some(v), ..self }
    }

    pub fn next_leap_change_time(self, v: XsDateTime) -> (r: Self)
        ensures
            r == (LeapSecondInformationBuilder { next_leap_change_time: Some(v), ..self }),
    {
        LeapSecondInformationBuilder { next_leap_change_time: Some(v), ..self }
    }

    /// Checks the rules and makes the [`LeapSecondInformation`].
    pub fn build(self) -> (r: Result<LeapSecondInformation, MpdError>)
        ensures
            r is Ok <==> self.meets_rules(),
            self.first_broken_rule() matches Some(e) ==>
                r == Err::<LeapSecondInformation, MpdError>(e),
            r matches Ok(e) ==>
                self.availability_start_leap_offset == Some(e.spec_availability_start_leap_offset()),
            r matches Ok(e) ==>
                e.spec_next_availability_start_leap_offset() == self.next_availability_start_leap_offset,
            r matches Ok(e) ==> e.spec_next_leap_change_time() == self.next_leap_change_time,
    {
        if let Err(e) = self.validate() {
            return Err(e);
        }
        let availability_start_leap_offset = match self.availability_start_leap_offset {
            Some(v) => v,
            None => return Err(MpdError::MissingRequiredField("availability_start_leap_offset")),
        };
        Ok(LeapSecondInformation {
            availability_start_leap_offset,
            next_availability_start_leap_offset: self.next_availability_start_leap_offset,
            next_leap_change_time: self.next_leap_change_time,
        })
    }
}

impl NeedValidater for LeapSecondInformationBuilder {
    open spec fn first_broken_rule(&self) -> Option<MpdError> {
        if self.availability_start_leap_offset is None {
            Some(MpdError::MissingRequiredField("availability_start_leap_offset"))
        } else {
            None
        }
    }

    fn validate(&self) -> (r: Result<(), MpdError>) {
        if self.availability_start_leap_offset.is_none() {
            return Err(MpdError::MissingRequiredField("availability_start_leap_offset"));
        }
        Ok(())
    }
}

/// Descriptor.
///
/// Built only through [`DescriptorBuilder`], which checks its rules.
#[derive(Debug, Clone, PartialEq, Eq)]
pub struct Descriptor {
    scheme_id_uri: XsAnyURI,
    value: Option<String>,
    id: Option<String>,
}

impl Descriptor {
    pub closed spec fn spec_scheme_id_uri(&self) -> XsAnyURI {
        self.scheme_id_uri
    }

    pub closed spec fn spec_value(&self) -> Option<String> {
        self.value
    }

    pub closed spec fn spec_id(&self) -> Option<String> {
        self.id
    }

    pub fn scheme_id_uri(&self) -> (r: &XsAnyURI)
        ensures
            *r == self.spec_scheme_id_uri(),
    {
        &self.scheme_id_uri
    }

    pub fn value(&self) -> (r: &Option<String>)
        ensures
            *r == self.spec_value(),
    {
        &self.value
    }

    pub fn id(&self) -> (r: &Option<String>)
        ensures
            *r == self.spec_id(),
    {
        &self.id
    }
}

/// Accumulates the fields of a [`Descriptor`]; [`DescriptorBuilder::build`] checks them.
#[derive(Debug, Default, Clone)]
pub struct DescriptorBuilder {
    pub scheme_id_uri: Option<XsAnyURI>,
    pub value: Option<String>,
    pub id: Option<String>,
}

impl DescriptorBuilder {
    /// Whether the fields meet the rules of a [`Descriptor`].
    pub open spec fn meets_rules(&self) -> bool {
        self.first_broken_rule() is None
    }

    pub fn scheme_id_uri(self, v: &str) -> (r: Self)
        ensures
            (r.scheme_id_uri matches Some(x) && x.view() == v@),
            r == (DescriptorBuilder { scheme_id_uri: r.scheme_id_uri, ..self }),
    {
        DescriptorBuilder { scheme_id_uri: Some(XsAnyURI::from(v)), ..self }
    }

    pub fn value(self, v: &str) -> (r: Self)
        ensures
            (r.value matches Some(x) && x@ == v@),
            r == (DescriptorBuilder { value: r.value, ..self }),
    {
        DescriptorBuilder { value: Some(v.to_owned()), ..self }
    }

    pub fn id(self, v: &str) -> (r: Self)
        ensures
            (r.id matches Some(x) && x@ == v@),
            r == (DescriptorBuilder { id: r.id, ..self }),
    {
        DescriptorBuilder { id: Some(v.to_owned()), ..self }
    }

    /// Checks the rules and makes the [`Descriptor`].
    pub fn build(self) -> (r: Result<Descriptor, MpdError>)
        ensures
            r is Ok <==> self.meets_rules(),
            self.first_broken_rule() matches Some(e) ==> r == Err::<Descriptor, MpdError>(e),
            r matches Ok(e) ==> self.scheme_id_uri == Some(e.spec_scheme_id_uri()),
            r matches Ok(e) ==> e.spec_value() == self.value,
            r matches Ok(e) ==> e.spec_id() == self.id,
    {
        if let Err(e) = self.validate() {
            return Err(e);
        }
        let scheme_id_uri = match self.scheme_id_uri {
            Some(v) => v,
            None => return Err(MpdError::MissingRequiredField("scheme_id_uri")),
        };
        Ok(Descriptor {
            scheme_id_uri,
            value: self.value,
            id: self.id,
        })
    }
}

impl NeedValidater for DescriptorBuilder {
    open spec fn first_broken_rule(&self) -> Option<MpdError> {
        if self.scheme_id_uri is None {
            Some(MpdError::MissingRequiredField("scheme_id_uri"))
        } else {
            None
        }
    }

    fn validate(&self) -> (r: Result<(), MpdError>) {
        if self.scheme_id_uri.is_none() {
            return Err(MpdError::MissingRequiredField("scheme_id_uri"));
        }
        Ok(())
    }
}

/// Content protection: a descriptor with references.
///
/// Built only through [`ContentProtectionBuilder`], which checks its rules.
#[derive(Debug, Clone, PartialEq, Eq)]
pub struct ContentProtection {
    descriptor: Descriptor,
    ref_: Option<XsId>,
    ref_id: Option<XsId>,
    robustness: Option<NoWhitespace>,
}

impl ContentProtection {
    pub closed spec fn spec_descriptor(&self) -> Descriptor {
        self.descriptor
    }

    pub closed spec fn spec_ref_(&self) -> Option<XsId> {
        self.ref_
    }

    pub closed spec fn spec_ref_id(&self) -> Option<XsId> {
        self.ref_id
    }

    pub closed spec fn spec_robustness(&self) -> Option<NoWhitespace> {
        self.robustness
    }

    pub fn descriptor(&self) -> (r: &Descriptor)
        ensures
            *r == self.spec_descriptor(),
    {
        &self.descriptor
    }

    pub fn ref_(&self) -> (r: &Option<XsId>)
        ensures
            *r == self.spec_ref_(),
    {
        &self.ref_
    }

    pub fn ref_id(&self) -> (r: &Option<XsId>)
        ensures
            *r == self.spec_ref_id(),
    {
        &self.ref_id
    }

    pub fn robustness(&self) -> (r: &Option<NoWhitespace>)
        ensures
            *r == self.spec_robustness(),
    {
        &self.robustness
    }
}

/// Accumulates the fields of a [`ContentProtection`]; [`ContentProtectionBuilder::build`] checks
/// them.
#[derive(Debug, Default, Clone)]
pub struct ContentProtectionBuilder {
    pub descriptor: Option<Descriptor>,
    pub ref_: Option<XsId>,
    pub ref_id: Option<XsId>,
    pub robustness: Option<NoWhitespace>,
}

impl ContentProtectionBuilder {
    /// Whether the fields meet the rules of a [`ContentProtection`].
    pub open spec fn meets_rules(&self) -> bool {
        self.first_broken_rule() is None
    }

    pub fn descriptor(self, v: Descriptor) -> (r: Self)
        ensures
            r == (ContentProtectionBuilder { descriptor: Some(v), ..self }),
    {
        ContentProtectionBuilder { descriptor: Some(v), ..self }
    }

    pub fn ref_(self, v: XsId) -> (r: Self)
        ensures
            r == (ContentProtectionBuilder { ref_: Some(v), ..self }),
    {
        ContentProtectionBuilder { ref_: Some(v), ..self }
    }

    pub fn ref_id(self, v: XsId) -> (r: Self)
        ensures
            r == (ContentProtectionBuilder { ref_id: Some(v), ..self }),
    {
        ContentProtectionBuilder { ref_id: Some(v), ..self }
    }

    pub fn robustness(self, v: NoWhitespace) -> (r: Self)
        ensures
            r == (ContentProtectionBuilder { robustness: Some(v), ..self }),
    {
        ContentProtectionBuilder { robustness: Some(v), ..self }
    }

    /// Checks the rules and makes the [`ContentProtection`].
    pub fn build(self) -> (r: Result<ContentProtection, MpdError>)
        ensures
            r is Ok <==> self.meets_rules(),
            self.first_broken_rule() matches Some(e) ==> r == Err::<ContentProtection, MpdError>(e),
            r matches Ok(e) ==> self.descriptor == Some(e.spec_descriptor()),
            r matches Ok(e) ==> e.spec_ref_() == self.ref_,
            r matches Ok(e) ==> e.spec_ref_id() == self.ref_id,
            r matches Ok(e) ==> e.spec_robustness() == self.robustness,
    {
        if let Err(e) = self.validate() {
            return Err(e);
        }
        let descriptor = match self.descriptor {
            Some(v) => v,
            None => return Err(MpdError::MissingRequiredField("descriptor")),
        };
        Ok(ContentProtection {
            descriptor,
            ref_: self.ref_,
            ref_id: self.ref_id,
            robustness: self.robustness,
        })
    }
}

impl NeedValidater for ContentProtectionBuilder {
    open spec fn first_broken_rule(&self) -> Option<MpdError> {
        if self.descriptor is None {
            Some(MpdError::MissingRequiredField("descriptor"))
        } else {
            None
        }
    }

    fn validate(&self) -> (r: Result<(), MpdError>) {
        if self.descriptor.is_none() {
            return Err(MpdError::MissingRequiredField("descriptor"));
        }
        Ok(())
    }
}

/// Event.
#[derive(Debug, Clone, PartialEq, Eq, Default)]
pub struct Event {
    presentation_time: Option<u64>,
    duration: Option<u64>,
    id: Option<u32>,
    content_encording: Option<ContentEncoding>,
    message_data: Option<String>,
}

impl Event {
    pub closed spec fn spec_presentation_time(&self) -> Option<u64> {
        self.presentation_time
    }

    pub closed spec fn spec_duration(&self) -> Option<u64> {
        self.duration
    }

    pub closed spec fn spec_id(&self) -> Option<u32> {
        self.id
    }

    pub closed spec fn spec_content_encording(&self) -> Option<ContentEncoding> {
        self.content_encording
    }

    pub closed spec fn spec_message_data(&self) -> Option<String> {
        self.message_data
    }

    pub fn presentation_time(&self) -> (r: &Option<u64>)
        ensures
            *r == self.spec_presentation_time(),
    {
        &self.presentation_time
    }

    pub fn duration(&self) -> (r: &Option<u64>)
        ensures
            *r == self.spec_duration(),
    {
        &self.duration
    }

    pub fn id(&self) -> (r: &Option<u32>)
        ensures
            *r == self.spec_id(),
    {
        &self.id
    }

    pub fn content_encording(&self) -> (r: &Option<ContentEncoding>)
        ensures
            *r == self.spec_content_encording(),
    {
        &self.content_encording
    }

    pub fn message_data(&self) -> (r: &Option<String>)
        ensures
            *r == self.spec_message_data(),
    {
        &self.message_data
    }
}

/// Accumulates the fields of a [`Event`]; [`EventBuilder::build`] checks them.
#[derive(Debug, Default, Clone)]
pub struct EventBuilder {
    pub presentation_time: Option<u64>,
    pub duration: Option<u64>,
    pub id: Option<u32>,
    pub content_encording: Option<ContentEncoding>,
    pub message_data: Option<String>,
}

impl EventBuilder {
    pub fn presentation_time(self, v: u64) -> (r: Self)
        ensures
            r == (EventBuilder { presentation_time: Some(v), ..self }),
    {
        EventBuilder { presentation_time: Some(v), ..self }
    }

    pub fn duration(self, v: u64) -> (r: Self)
        ensures
            r == (EventBuilder { duration: Some(v), ..self }),
    {
        EventBuilder { duration: Some(v), ..self }
    }

    pub fn id(self, v: u32) -> (r: Self)
        ensures
            r == (EventBuilder { id: Some(v), ..self }),
    {
        EventBuilder { id: Some(v), ..self }
    }

    pub fn content_encording(self, v: ContentEncoding) -> (r: Self)
        ensures
            r == (EventBuilder { content_encording: Some(v), ..self }),
    {
        EventBuilder { content_encording: Some(v), ..self }
    }

    pub fn message_data(self, v: &str) -> (r: Self)
        ensures
            (r.message_data matches Some(x) && x@ == v@),
            r == (EventBuilder { message_data: r.message_data, ..self }),
    {
        EventBuilder { message_data: Some(v.to_owned()), ..self }
    }

    /// Checks the rules and makes the [`Event`].
    pub fn build(self) -> (r: Result<Event, MpdError>)
        ensures
            r is Ok,
            r matches Ok(e) ==> e.spec_presentation_time() == self.presentation_time,
            r matches Ok(e) ==> e.spec_duration() == self.duration,
            r matches Ok(e) ==> e.spec_id() == self.id,
            r matches Ok(e) ==> e.spec_content_encording() == self.content_encording,
            r matches Ok(e) ==> e.spec_message_data() == self.message_data,
    {
        Ok(Event {
            presentation_time: self.presentation_time,
            duration: self.duration,
            id: self.id,
            content_encording: self.content_encording,
            message_data: self.message_data,
        })
    }
}

/// Event stream.
///
/// Built only through [`EventStreamBuilder`], which checks its rules.
#[derive(Debug, Clone, PartialEq, Eq)]
pub struct EventStream {
    href: Option<String>,
    actuate: Option<XLinkActure>,
    scheme_id_uri: XsAnyURI,
    value: Option<String>,
    timescale: Option<u32>,
    presentation_time_offset: Option<u64>,
    events: Option<Vec<Event>>,
}

impl EventStream {
    pub closed spec fn spec_href(&self) -> Option<String> {
        self.href
    }

    pub closed spec fn spec_actuate(&self) -> Option<XLinkActure> {
        self.actuate
    }

    pub closed spec fn spec_scheme_id_uri(&self) -> XsAnyURI {
        self.scheme_id_uri
    }

    pub closed spec fn spec_value(&self) -> Option<String> {
        self.value
    }

    pub closed spec fn spec_timescale(&self) -> Option<u32> {
        self.timescale
    }

    pub closed spec fn spec_presentation_time_offset(&self) -> Option<u64> {
        self.presentation_time_offset
    }

    pub closed spec fn spec_events(&self) -> Option<Vec<Event>> {
        self.events
    }

    pub fn href(&self) -> (r: &Option<String>)
        ensures
            *r == self.spec_href(),
    {
        &self.href
    }

    pub fn actuate(&self) -> (r: &Option<XLinkActure>)
        ensures
            *r == self.spec_actuate(),
    {
        &self.actuate
    }

    pub fn scheme_id_uri(&self) -> (r: &XsAnyURI)
        ensures
            *r == self.spec_scheme_id_uri(),
    {
        &self.scheme_id_uri
    }

    pub fn value(&self) -> (r: &Option<String>)
        ensures
            *r == self.spec_value(),
    {
        &self.value
    }

    pub fn timescale(&self) -> (r: &Option<u32>)
        ensures
            *r == self.spec_timescale(),
    {
        &self.timescale
    }

    pub fn presentation_time_offset(&self) -> (r: &Option<u64>)
        ensures
            *r == self.spec_presentation_time_offset(),
    {
        &self.presentation_time_offset
    }

    pub fn events(&self) -> (r: &Option<Vec<Event>>)
        ensures
            *r == self.spec_events(),
    {
        &self.events
    }
}

/// Accumulates the fields of a [`EventStream`]; [`EventStreamBuilder::build`] checks them.
#[derive(Debug, Default, Clone)]
pub struct EventStreamBuilder {
    pub href: Option<String>,
    pub actuate: Option<XLinkActure>,
    pub scheme_id_uri: Option<XsAnyURI>,
    pub value: Option<String>,
    pub timescale: Option<u32>,
    pub presentation_time_offset: Option<u64>,
    pub events: Option<Vec<Event>>,
}

impl EventStreamBuilder {
    /// Whether the fields meet the rules of a [`EventStream`].
    pub open spec fn meets_rules(&self) -> bool {
        self.first_broken_rule() is None
    }

    pub fn href(self, v: &str) -> (r: Self)
        ensures
            (r.href matches Some(x) && x@ == v@),
            r == (EventStreamBuilder { href: r.href, ..self }),
    {
        EventStreamBuilder { href: Some(v.to_owned()), ..self }
    }

    pub fn actuate(self, v: XLinkActure) -> (r: Self)
        ensures
            r == (EventStreamBuilder { actuate: Some(v), ..self }),
    {
        EventStreamBuilder { actuate: Some(v), ..self }
    }

    pub fn scheme_id_uri(self, v: &str) -> (r: Self)
        ensures
            (r.scheme_id_uri matches Some(x) && x.view() == v@),
            r == (EventStreamBuilder { scheme_id_uri: r.scheme_id_uri, ..self }),
    {
        EventStreamBuilder { scheme_id_uri: Some(XsAnyURI::from(v)), ..self }
    }

    pub fn value(self, v: &str) -> (r: Self)
        ensures
            (r.value matches Some(x) && x@ == v@),
            r == (EventStreamBuilder { value: r.value, ..self }),
    {
        EventStreamBuilder { value: Some(v.to_owned()), ..self }
    }

    pub fn timescale(self, v: u32) -> (r: Self)
        ensures
            r == (EventStreamBuilder { timescale: Some(v), ..self }),
    {
        EventStreamBuilder { timescale: Some(v), ..self }
    }

    pub fn presentation_time_offset(self, v: u64) -> (r: Self)
        ensures
            r == (EventStreamBuilder { presentation_time_offset: Some(v), ..self }),
    {
        EventStreamBuilder { presentation_time_offset: Some(v), ..self }
    }

    pub fn events(self, v: Vec<Event>) -> (r: Self)
        ensures
            r == (EventStreamBuilder { events: Some(v), ..self }),
    {
        EventStreamBuilder { events: Some(v), ..self }
    }

    /// Checks the rules and makes the [`EventStream`].
    pub fn build(self) -> (r: Result<EventStream, MpdError>)
        ensures
            r is Ok <==> self.meets_rules(),
            self.first_broken_rule() matches Some(e) ==> r == Err::<EventStream, MpdError>(e),
            r matches Ok(e) ==> e.spec_href() == self.href,
            r matches Ok(e) ==> e.spec_actuate() == self.actuate,
            r matches Ok(e) ==> self.scheme_id_uri == Some(e.spec_scheme_id_uri()),
            r matches Ok(e) ==> e.spec_value() == self.value,
            r matches Ok(e) ==> e.spec_timescale() == self.timescale,
            r matches Ok(e) ==> e.spec_presentation_time_offset() == self.presentation_time_offset,
            r matches Ok(e) ==> e.spec_events() == self.events,
    {
        if let Err(e) = self.validate() {
            return Err(e);
        }
        let scheme_id_uri = match self.scheme_id_uri {
            Some(v) => v,
            None => return Err(MpdError::MissingRequiredField("scheme_id_uri")),
        };
        Ok(EventStream {
            href: self.href,
            actuate: self.actuate,
            scheme_id_uri,
            value: self.value,
            timescale: self.timescale,
            presentation_time_offset: self.presentation_time_offset,
            events: self.events,
        })
    }
}

impl NeedValidater for EventStreamBuilder {
    open spec fn first_broken_rule(&self) -> Option<MpdError> {
        if self.scheme_id_uri is None {
            Some(MpdError::MissingRequiredField("scheme_id_uri"))
        } else {
            None
        }
    }

    fn validate(&self) -> (r: Result<(), MpdError>) {
        if self.scheme_id_uri.is_none() {
            return Err(MpdError::MissingRequiredField("scheme_id_uri"));
        }
        Ok(())
    }
}

/// Switching.
///
/// Built only through [`SwitchingBuilder`], which checks its rules.
#[derive(Debug, Clone, PartialEq, Eq)]
pub struct Switching {
    interval: u32,
    type_: Option<SwitchingType>,
}

impl Switching {
    pub closed spec fn spec_interval(&self) -> u32 {
        self.interval
    }

    pub closed spec fn spec_type_(&self) -> Option<SwitchingType> {
        self.type_
    }

    pub fn interval(&self) -> (r: &u32)
        ensures
            *r == self.spec_interval(),
    {
        &self.interval
    }

    pub fn type_(&self) -> (r: &Option<SwitchingType>)
        ensures
            *r == self.spec_type_(),
    {
        &self.type_
    }
}

/// Accumulates the fields of a [`Switching`]; [`SwitchingBuilder::build`] checks them.
#[derive(Debug, Default, Clone)]
pub struct SwitchingBuilder {
    pub interval: Option<u32>,
    pub type_: Option<SwitchingType>,
}

impl SwitchingBuilder {
    /// Whether the fields meet the rules of a [`Switching`].
    pub open spec fn meets_rules(&self) -> bool {
        self.first_broken_rule() is None
    }

    pub fn interval(self, v: u32) -> (r: Self)
        ensures
            r == (SwitchingBuilder { interval: Some(v), ..self }),
    {
        SwitchingBuilder { interval: Some(v), ..self }
    }

    pub fn type_(self, v: SwitchingType) -> (r: Self)
        ensures
            r == (SwitchingBuilder { type_: Some(v), ..self }),
    {
        SwitchingBuilder { type_: Some(v), ..self }
    }

    /// Checks the rules and makes the [`Switching`].
    pub fn build(self) -> (r: Result<Switching, MpdError>)
        ensures
            r is Ok <==> self.meets_rules(),
            self.first_broken_rule() matches Some(e) ==> r == Err::<Switching, MpdError>(e),
            r matches Ok(e) ==> self.interval == Some(e.spec_interval()),
            r matches Ok(e) ==> e.spec_type_() == self.type_,
    {
        if let Err(e) = self.validate() {
            return Err(e);
        }
        let interval = match self.interval {
            Some(v) => v,
            None => return Err(MpdError::MissingRequiredField("interval")),
        };
        Ok(Switching {
            interval,
            type_: self.type_,
        })
    }
}

impl NeedValidater for SwitchingBuilder {
    open spec fn first_broken_rule(&self) -> Option<MpdError> {
        if self.interval is None {
            Some(MpdError::MissingRequiredField("interval"))
        } else {
            None
        }
    }

    fn validate(&self) -> (r: Result<(), MpdError>) {
        if self.interval.is_none() {
            return Err(MpdError::MissingRequiredField("interval"));
        }
        Ok(())
    }
}

/// Random access.
///
/// Built only through [`RandomAccessBuilder`], which checks its rules.
#[derive(Debug, Clone, PartialEq, Eq)]
pub struct RandomAccess {
    interval: u32,
    type_: Option<RandomAccessType>,
    min_buffer_time: Option<XsDuration>,
    bandwidth: Option<u32>,
}

impl RandomAccess {
    pub closed spec fn spec_interval(&self) -> u32 {
        self.interval
    }

    pub closed spec fn spec_type_(&self) -> Option<RandomAccessType> {
        self.type_
    }

    pub closed spec fn spec_min_buffer_time(&self) -> Option<XsDuration> {
        self.min_buffer_time
    }

    pub closed spec fn spec_bandwidth(&self) -> Option<u32> {
        self.bandwidth
    }

    pub fn interval(&self) -> (r: &u32)
        ensures
            *r == self.spec_interval(),
    {
        &self.interval
    }

    pub fn type_(&self) -> (r: &Option<RandomAccessType>)
        ensures
            *r == self.spec_type_(),
    {
        &self.type_
    }

    pub fn min_buffer_time(&self) -> (r: &Option<XsDuration>)
        ensures
            *r == self.spec_min_buffer_time(),
    {
        &self.min_buffer_time
    }

    pub fn bandwidth(&self) -> (r: &Option<u32>)
        ensures
            *r == self.spec_bandwidth(),
    {
        &self.bandwidth
    }
}

/// Accumulates the fields of a [`RandomAccess`]; [`RandomAccessBuilder::build`] checks them.
#[derive(Debug, Default, Clone)]
pub struct RandomAccessBuilder {
    pub interval: Option<u32>,
    pub type_: Option<RandomAccessType>,
    pub min_buffer_time: Option<XsDuration>,
    pub bandwidth: Option<u32>,
}

impl RandomAccessBuilder {
    /// Whether the fields meet the rules of a [`RandomAccess`].
    pub open spec fn meets_rules(&self) -> bool {
        self.first_broken_rule() is None
    }

    pub fn interval(self, v: u32) -> (r: Self)
        ensures
            r == (RandomAccessBuilder { interval: Some(v), ..self }),
    {
        RandomAccessBuilder { interval: Some(v), ..self }
    }

    pub fn type_(self, v: RandomAccessType) -> (r: Self)
        ensures
            r == (RandomAccessBuilder { type_: Some(v), ..self }),
    {
        RandomAccessBuilder { type_: Some(v), ..self }
    }

    pub fn min_buffer_time(self, v: XsDuration) -> (r: Self)
        ensures
            r == (RandomAccessBuilder { min_buffer_time: Some(v), ..self }),
    {
        RandomAccessBuilder { min_buffer_time: Some(v), ..self }
    }

    pub fn bandwidth(self, v: u32) -> (r: Self)
        ensures
            r == (RandomAccessBuilder { bandwidth: Some(v), ..self }),
    {
        RandomAccessBuilder { bandwidth: Some(v), ..self }
    }

    /// Checks the rules and makes the [`RandomAccess`].
    pub fn build(self) -> (r: Result<RandomAccess, MpdError>)
        ensures
            r is Ok <==> self.meets_rules(),
            self.first_broken_rule() matches Some(e) ==> r == Err::<RandomAccess, MpdError>(e),
            r matches Ok(e) ==> self.interval == Some(e.spec_interval()),
            r matches Ok(e) ==> e.spec_type_() == self.type_,
            r matches Ok(e) ==> e.spec_min_buffer_time() == self.min_buffer_time,
            r matches Ok(e) ==> e.spec_bandwidth() == self.bandwidth,
    {
        if let Err(e) = self.validate() {
            return Err(e);
        }
        let interval = match self.interval {
            Some(v) => v,
            None => return Err(MpdError::MissingRequiredField("interval")),
        };
        Ok(RandomAccess {
            interval,
            type_: self.type_,
            min_buffer_time: self.min_buffer_time,
            bandwidth: self.bandwidth,
        })
    }
}

impl NeedValidater for RandomAccessBuilder {
    open spec fn first_broken_rule(&self) -> Option<MpdError> {
        if self.interval is None {
            Some(MpdError::MissingRequiredField("interval"))
        } else {
            None
        }
    }

    fn validate(&self) -> (r: Result<(), MpdError>) {
        if self.interval.is_none() {
            return Err(MpdError::MissingRequiredField("interval"));
        }
        Ok(())
    }
}

/// Label.
#[derive(Debug, Clone, PartialEq, Eq, Default)]
pub struct Label {
    id: Option<u32>,
    lang: Option<XsLanguage>,
}

impl Label {
    pub closed spec fn spec_id(&self) -> Option<u32> {
        self.id
    }

    pub closed spec fn spec_lang(&self) -> Option<XsLanguage> {
        self.lang
    }

    pub fn id(&self) -> (r: &Option<u32>)
        ensures
            *r == self.spec_id(),
    {
        &self.id
    }

    pub fn lang(&self) -> (r: &Option<XsLanguage>)
        ensures
            *r == self.spec_lang(),
    {
        &self.lang
    }
}

/// Accumulates the fields of a [`Label`]; [`LabelBuilder::build`] checks them.
#[derive(Debug, Default, Clone)]
pub struct LabelBuilder {
    pub id: Option<u32>,
    pub lang: Option<XsLanguage>,
}

impl LabelBuilder {
    pub fn id(self, v: u32) -> (r: Self)
        ensures
            r == (LabelBuilder { id: Some(v), ..self }),
    {
        LabelBuilder { id: Some(v), ..self }
    }

    pub fn lang(self, v: XsLanguage) -> (r: Self)
        ensures
            r == (LabelBuilder { lang: Some(v), ..self }),
    {
        LabelBuilder { lang: Some(v), ..self }
    }

    /// Checks the rules and makes the [`Label`].
    pub fn build(self) -> (r: Result<Label, MpdError>)
        ensures
            r is Ok,
            r matches Ok(e) ==> e.spec_id() == self.id,
            r matches Ok(e) ==> e.spec_lang() == self.lang,
    {
        Ok(Label {
            id: self.id,
            lang: self.lang,
        })
    }
}

/// Producer reference time.
///
/// Built only through [`ProducerReferenceTimeBuilder`], which checks its rules.
#[derive(Debug, Clone, PartialEq, Eq)]
pub struct ProducerReferenceTime {
    id: u32,
    inband: Option<bool>,
    type_: Option<ProducerReferenceTimeType>,
    application_scheme: Option<String>,
    wall_clock_time: String,
    presentation_time: u64,
    utc_timing: Option<Descriptor>,
}

impl ProducerReferenceTime {
    pub closed spec fn spec_id(&self) -> u32 {
        self.id
    }

    pub closed spec fn spec_inband(&self) -> Option<bool> {
        self.inband
    }

    pub closed spec fn spec_type_(&self) -> Option<ProducerReferenceTimeType> {
        self.type_
    }

    pub closed spec fn spec_application_scheme(&self) -> Option<String> {
        self.application_scheme
    }

    pub closed spec fn spec_wall_clock_time(&self) -> String {
        self.wall_clock_time
    }

    pub closed spec fn spec_presentation_time(&self) -> u64 {
        self.presentation_time
    }

    pub closed spec fn spec_utc_timing(&self) -> Option<Descriptor> {
        self.utc_timing
    }

    pub fn id(&self) -> (r: &u32)
        ensures
            *r == self.spec_id(),
    {
        &self.id
    }

    pub fn inband(&self) -> (r: &Option<bool>)
        ensures
            *r == self.spec_inband(),
    {
        &self.inband
    }

    pub fn type_(&self) -> (r: &Option<ProducerReferenceTimeType>)
        ensures
            *r == self.spec_type_(),
    {
        &self.type_
    }

    pub fn application_scheme(&self) -> (r: &Option<String>)
        ensures
            *r == self.spec_application_scheme(),
    {
        &self.application_scheme
    }

    pub fn wall_clock_time(&self) -> (r: &String)
        ensures
            *r == self.spec_wall_clock_time(),
    {
        &self.wall_clock_time
    }

    pub fn presentation_time(&self) -> (r: &u64)
        ensures
            *r == self.spec_presentation_time(),
    {
        &self.presentation_time
    }

    pub fn utc_timing(&self) -> (r: &Option<Descriptor>)
        ensures
            *r == self.spec_utc_timing(),
    {
        &self.utc_timing
    }
}

/// Accumulates the fields of a [`ProducerReferenceTime`]; [`ProducerReferenceTimeBuilder::build`]
/// checks them.
#[derive(Debug, Default, Clone)]
pub struct ProducerReferenceTimeBuilder {
    pub id: Option<u32>,
    pub inband: Option<bool>,
    pub type_: Option<ProducerReferenceTimeType>,
    pub application_scheme: Option<String>,
    pub wall_clock_time: Option<String>,
    pub presentation_time: Option<u64>,
    pub utc_timing: Option<Descriptor>,
}

impl ProducerReferenceTimeBuilder {
    /// Whether the fields meet the rules of a [`ProducerReferenceTime`].
    pub open spec fn meets_rules(&self) -> bool {
        self.first_broken_rule() is None
    }

    pub fn id(self, v: u32) -> (r: Self)
        ensures
            r == (ProducerReferenceTimeBuilder { id: Some(v), ..self }),
    {
        ProducerReferenceTimeBuilder { id: Some(v), ..self }
    }

    pub fn inband(self, v: bool) -> (r: Self)
        ensures
            r == (ProducerReferenceTimeBuilder { inband: Some(v), ..self }),
    {
        ProducerReferenceTimeBuilder { inband: Some(v), ..self }
    }

    pub fn type_(self, v: ProducerReferenceTimeType) -> (r: Self)
        ensures
            r == (ProducerReferenceTimeBuilder { type_: Some(v), ..self }),
    {
        ProducerReferenceTimeBuilder { type_: Some(v), ..self }
    }

    pub fn application_scheme(self, v: &str) -> (r: Self)
        ensures
            (r.application_scheme matches Some(x) && x@ == v@),
            r == (ProducerReferenceTimeBuilder { application_scheme: r.application_scheme, ..self }),
    {
        ProducerReferenceTimeBuilder { application_scheme: Some(v.to_owned()), ..self }
    }

    pub fn wall_clock_time(self, v: &str) -> (r: Self)
        ensures
            (r.wall_clock_time matches Some(x) && x@ == v@),
            r == (ProducerReferenceTimeBuilder { wall_clock_time: r.wall_clock_time, ..self }),
    {
        ProducerReferenceTimeBuilder { wall_clock_time: Some(v.to_owned()), ..self }
    }

    pub fn presentation_time(self, v: u64) -> (r: Self)
        ensures
            r == (ProducerReferenceTimeBuilder { presentation_time: Some(v), ..self }),
    {
        ProducerReferenceTimeBuilder { presentation_time: Some(v), ..self }
    }

    pub fn utc_timing(self, v: Descriptor) -> (r: Self)
        ensures
            r == (ProducerReferenceTimeBuilder { utc_timing: Some(v), ..self }),
    {
        ProducerReferenceTimeBuilder { utc_timing: Some(v), ..self }
    }

    /// Checks the rules and makes the [`ProducerReferenceTime`].
    pub fn build(self) -> (r: Result<ProducerReferenceTime, MpdError>)
        ensures
            r is Ok <==> self.meets_rules(),
            self.first_broken_rule() matches Some(e) ==>
                r == Err::<ProducerReferenceTime, MpdError>(e),
            r matches Ok(e) ==> self.id == Some(e.spec_id()),
            r matches Ok(e) ==> e.spec_inband() == self.inband,
            r matches Ok(e) ==> e.spec_type_() == self.type_,
            r matches Ok(e) ==> e.spec_application_scheme() == self.application_scheme,
            r matches Ok(e) ==> self.wall_clock_time == Some(e.spec_wall_clock_time()),
            r matches Ok(e) ==> self.presentation_time == Some(e.spec_presentation_time()),
            r matches Ok(e) ==> e.spec_utc_timing() == self.utc_timing,
    {
        if let Err(e) = self.validate() {
            return Err(e);
        }
        let id = match self.id {
            Some(v) => v,
            None => return Err(MpdError::MissingRequiredField("id")),
        };
        let wall_clock_time = match self.wall_clock_time {
            Some(v) => v,
            None => return Err(MpdError::MissingRequiredField("wall_clock_time")),
        };
        let presentation_time = match self.presentation_time {
            Some(v) => v,
            None => return Err(MpdError::MissingRequiredField("presentation_time")),
        };
        Ok(ProducerReferenceTime {
            id,
            inband: self.inband,
            type_: self.type_,
            application_scheme: self.application_scheme,
            wall_clock_time,
            presentation_time,
            utc_timing: self.utc_timing,
        })
    }
}

impl NeedValidater for ProducerReferenceTimeBuilder {
    open spec fn first_broken_rule(&self) -> Option<MpdError> {
        if self.id is None {
            Some(MpdError::MissingRequiredField("id"))
        } else if self.wall_clock_time is None {
            Some(MpdError::MissingRequiredField("wall_clock_time"))
        } else if self.presentation_time is None {
            Some(MpdError::MissingRequiredField("presentation_time"))
        } else if self.type_ == Some(ProducerReferenceTimeType::Application) && self.application_scheme is None {
            Some(MpdError::MissingRequiredField("application_scheme"))
        } else if self.application_scheme is Some && self.type_ != Some(ProducerReferenceTimeType::Application) {
            Some(MpdError::InvalidFieldCombination("application_scheme"))
        } else {
            None
        }
    }

    fn validate(&self) -> (r: Result<(), MpdError>) {
        if self.id.is_none() {
            return Err(MpdError::MissingRequiredField("id"));
        }
        if self.wall_clock_time.is_none() {
            return Err(MpdError::MissingRequiredField("wall_clock_time"));
        }
        if self.presentation_time.is_none() {
            return Err(MpdError::MissingRequiredField("presentation_time"));
        }
        if is_application(&self.type_) && self.application_scheme.is_none() {
            return Err(MpdError::MissingRequiredField("application_scheme"));
        }
        if self.application_scheme.is_some() && !is_application(&self.type_) {
            return Err(MpdError::InvalidFieldCombination("application_scheme"));
        }
        Ok(())
    }
}

/// Popularity rate.
///
/// Built only through [`PopularityRateBuilder`], which checks its rules.
#[derive(Debug, Clone, PartialEq, Eq)]
pub struct PopularityRate {
    popularity_rate: u32,
    start: Option<u64>,
    repeat_count: Option<i32>,
}

impl PopularityRate {
    pub closed spec fn spec_popularity_rate(&self) -> u32 {
        self.popularity_rate
    }

    pub closed spec fn spec_start(&self) -> Option<u64> {
        self.start
    }

    pub closed spec fn spec_repeat_count(&self) -> Option<i32> {
        self.repeat_count
    }

    pub fn popularity_rate(&self) -> (r: &u32)
        ensures
            *r == self.spec_popularity_rate(),
    {
        &self.popularity_rate
    }

    pub fn start(&self) -> (r: &Option<u64>)
        ensures
            *r == self.spec_start(),
    {
        &self.start
    }

    pub fn repeat_count(&self) -> (r: &Option<i32>)
        ensures
            *r == self.spec_repeat_count(),
    {
        &self.repeat_count
    }
}

/// Accumulates the fields of a [`PopularityRate`]; [`PopularityRateBuilder::build`] checks them.
#[derive(Debug, Default, Clone)]
pub struct PopularityRateBuilder {
    pub popularity_rate: Option<u32>,
    pub start: Option<u64>,
    pub repeat_count: Option<i32>,
}

impl PopularityRateBuilder {
    /// Whether the fields meet the rules of a [`PopularityRate`].
    pub open spec fn meets_rules(&self) -> bool {
        self.first_broken_rule() is None
    }

    pub fn popularity_rate(self, v: u32) -> (r: Self)
        ensures
            r == (PopularityRateBuilder { popularity_rate: Some(v), ..self }),
    {
        PopularityRateBuilder { popularity_rate: Some(v), ..self }
    }

    pub fn start(self, v: u64) -> (r: Self)
        ensures
            r == (PopularityRateBuilder { start: Some(v), ..self }),
    {
        PopularityRateBuilder { start: Some(v), ..self }
    }

    pub fn repeat_count(self, v: i32) -> (r: Self)
        ensures
            r == (PopularityRateBuilder { repeat_count: Some(v), ..self }),
    {
        PopularityRateBuilder { repeat_count: Some(v), ..self }
    }

    /// Checks the rules and makes the [`PopularityRate`].
    pub fn build(self) -> (r: Result<PopularityRate, MpdError>)
        ensures
            r is Ok <==> self.meets_rules(),
            self.first_broken_rule() matches Some(e) ==> r == Err::<PopularityRate, MpdError>(e),
            r matches Ok(e) ==> self.popularity_rate == Some(e.spec_popularity_rate()),
            r matches Ok(e) ==> e.spec_start() == self.start,
            r matches Ok(e) ==> e.spec_repeat_count() == self.repeat_count,
    {
        if let Err(e) = self.validate() {
            return Err(e);
        }
        let popularity_rate = match self.popularity_rate {
            Some(v) => v,
            None => return Err(MpdError::MissingRequiredField("popularity_rate")),
        };
        Ok(PopularityRate {
            popularity_rate,
            start: self.start,
            repeat_count: self.repeat_count,
        })
    }
}

impl NeedValidater for PopularityRateBuilder {
    open spec fn first_broken_rule(&self) -> Option<MpdError> {
        if self.popularity_rate is None {
            Some(MpdError::MissingRequiredField("popularity_rate"))
        } else if (self.popularity_rate matches Some(v) && !(1 <= v <= 100)) {
            Some(MpdError::OutOfRange("popularity_rate"))
        } else {
            None
        }
    }

    fn validate(&self) -> (r: Result<(), MpdError>) {
        if self.popularity_rate.is_none() {
            return Err(MpdError::MissingRequiredField("popularity_rate"));
        }
        if match self.popularity_rate { Some(v) => v < 1 || v > 100, None => false } {
            return Err(MpdError::OutOfRange("popularity_rate"));
        }
        Ok(())
    }
}

/// Content popularity rate.
///
/// Built only through [`ContentPopularityRateBuilder`], which checks its rules.
#[derive(Debug, Clone, PartialEq, Eq)]
pub struct ContentPopularityRate {
    source: Source,
    source_description: Option<String>,
    popularity_rates: Vec<PopularityRate>,
}

impl ContentPopularityRate {
    pub closed spec fn spec_source(&self) -> Source {
        self.source
    }

    pub closed spec fn spec_source_description(&self) -> Option<String> {
        self.source_description
    }

    pub closed spec fn spec_popularity_rates(&self) -> Vec<PopularityRate> {
        self.popularity_rates
    }

    pub fn source(&self) -> (r: &Source)
        ensures
            *r == self.spec_source(),
    {
        &self.source
    }

    pub fn source_description(&self) -> (r: &Option<String>)
        ensures
            *r == self.spec_source_description(),
    {
        &self.source_description
    }

    pub fn popularity_rates(&self) -> (r: &Vec<PopularityRate>)
        ensures
            *r == self.spec_popularity_rates(),
    {
        &self.popularity_rates
    }
}

/// Accumulates the fields of a [`ContentPopularityRate`]; [`ContentPopularityRateBuilder::build`]
/// checks them.
#[derive(Debug, Default, Clone)]
pub struct ContentPopularityRateBuilder {
    pub source: Option<Source>,
    pub source_description: Option<String>,
    pub popularity_rates: Option<Vec<PopularityRate>>,
}

impl ContentPopularityRateBuilder {
    /// Whether the fields meet the rules of a [`ContentPopularityRate`].
    pub open spec fn meets_rules(&self) -> bool {
        self.first_broken_rule() is None
    }

    pub fn source(self, v: Source) -> (r: Self)
        ensures
            r == (ContentPopularityRateBuilder { source: Some(v), ..self }),
    {
        ContentPopularityRateBuilder { source: Some(v), ..self }
    }

    pub fn source_description(self, v: &str) -> (r: Self)
        ensures
            (r.source_description matches Some(x) && x@ == v@),
            r == (ContentPopularityRateBuilder { source_description: r.source_description, ..self }),
    {
        ContentPopularityRateBuilder { source_description: Some(v.to_owned()), ..self }
    }

    pub fn popularity_rates(self, v: Vec<PopularityRate>) -> (r: Self)
        ensures
            r == (ContentPopularityRateBuilder { popularity_rates: Some(v), ..self }),
    {
        ContentPopularityRateBuilder { popularity_rates: Some(v), ..self }
    }

    /// Checks the rules and makes the [`ContentPopularityRate`].
    pub fn build(self) -> (r: Result<ContentPopularityRate, MpdError>)
        ensures
            r is Ok <==> self.meets_rules(),
            self.first_broken_rule() matches Some(e) ==>
                r == Err::<ContentPopularityRate, MpdError>(e),
            r matches Ok(e) ==> self.source == Some(e.spec_source()),
            r matches Ok(e) ==> e.spec_source_description() == self.source_description,
            r matches Ok(e) ==> self.popularity_rates == Some(e.spec_popularity_rates()),
    {
        if let Err(e) = self.validate() {
            return Err(e);
        }
        let source = match self.source {
            Some(v) => v,
            None => return Err(MpdError::MissingRequiredField("source")),
        };
        let popularity_rates = match self.popularity_rates {
            Some(v) => v,
            None => return Err(MpdError::MissingRequiredField("popularity_rates")),
        };
        Ok(ContentPopularityRate {
            source,
            source_description: self.source_description,
            popularity_rates,
        })
    }
}

impl NeedValidater for ContentPopularityRateBuilder {
    open spec fn first_broken_rule(&self) -> Option<MpdError> {
        if self.source is None {
            Some(MpdError::MissingRequiredField("source"))
        } else if !(self.popularity_rates matches Some(v) && v@.len() > 0) {
            Some(MpdError::EmptyRequiredCollection("popularity_rates"))
        } else {
            None
        }
    }

    fn validate(&self) -> (r: Result<(), MpdError>) {
        if self.source.is_none() {
            return Err(MpdError::MissingRequiredField("source"));
        }
        if match &self.popularity_rates { Some(v) => v.len() == 0, None => true } {
            return Err(MpdError::EmptyRequiredCollection("popularity_rates"));
        }
        Ok(())
    }
}

/// Resynchronisation point.
#[derive(Debug, Clone, PartialEq, Eq, Default)]
pub struct Resync {
    type_: Option<StreamAccessPoint>,
    diff_time: Option<u32>,
    diff_index_max: Option<XsDouble>,
    diff_index_min: Option<XsDouble>,
    marker: Option<bool>,
}

impl Resync {
    pub closed spec fn spec_type_(&self) -> Option<StreamAccessPoint> {
        self.type_
    }

    pub closed spec fn spec_diff_time(&self) -> Option<u32> {
        self.diff_time
    }

    pub closed spec fn spec_diff_index_max(&self) -> Option<XsDouble> {
        self.diff_index_max
    }

    pub closed spec fn spec_diff_index_min(&self) -> Option<XsDouble> {
        self.diff_index_min
    }

    pub closed spec fn spec_marker(&self) -> Option<bool> {
        self.marker
    }

    pub fn type_(&self) -> (r: &Option<StreamAccessPoint>)
        ensures
            *r == self.spec_type_(),
    {
        &self.type_
    }

    pub fn diff_time(&self) -> (r: &Option<u32>)
        ensures
            *r == self.spec_diff_time(),
    {
        &self.diff_time
    }

    pub fn diff_index_max(&self) -> (r: &Option<XsDouble>)
        ensures
            *r == self.spec_diff_index_max(),
    {
        &self.diff_index_max
    }

    pub fn diff_index_min(&self) -> (r: &Option<XsDouble>)
        ensures
            *r == self.spec_diff_index_min(),
    {
        &self.diff_index_min
    }

    pub fn marker(&self) -> (r: &Option<bool>)
        ensures
            *r == self.spec_marker(),
    {
        &self.marker
    }
}

/// Accumulates the fields of a [`Resync`]; [`ResyncBuilder::build`] checks them.
#[derive(Debug, Default, Clone)]
pub struct ResyncBuilder {
    pub type_: Option<StreamAccessPoint>,
    pub diff_time: Option<u32>,
    pub diff_index_max: Option<XsDouble>,
    pub diff_index_min: Option<XsDouble>,
    pub marker: Option<bool>,
}

impl ResyncBuilder {
    pub fn type_(self, v: StreamAccessPoint) -> (r: Self)
        ensures
            r == (ResyncBuilder { type_: Some(v), ..self }),
    {
        ResyncBuilder { type_: Some(v), ..self }
    }

    pub fn diff_time(self, v: u32) -> (r: Self)
        ensures
            r == (ResyncBuilder { diff_time: Some(v), ..self }),
    {
        ResyncBuilder { diff_time: Some(v), ..self }
    }

    pub fn diff_index_max(self, v: XsDouble) -> (r: Self)
        ensures
            r == (ResyncBuilder { diff_index_max: Some(v), ..self }),
    {
        ResyncBuilder { diff_index_max: Some(v), ..self }
    }

    pub fn diff_index_min(self, v: XsDouble) -> (r: Self)
        ensures
            r == (ResyncBuilder { diff_index_min: Some(v), ..self }),
    {
        ResyncBuilder { diff_index_min: Some(v), ..self }
    }

    pub fn marker(self, v: bool) -> (r: Self)
        ensures
            r == (ResyncBuilder { marker: Some(v), ..self }),
    {
        ResyncBuilder { marker: Some(v), ..self }
    }

    /// Checks the rules and makes the [`Resync`].
    pub fn build(self) -> (r: Result<Resync, MpdError>)
        ensures
            r is Ok,
            r matches Ok(e) ==> e.spec_type_() == self.type_,
            r matches Ok(e) ==> e.spec_diff_time() == self.diff_time,
            r matches Ok(e) ==> e.spec_diff_index_max() == self.diff_index_max,
            r matches Ok(e) ==> e.spec_diff_index_min() == self.diff_index_min,
            r matches Ok(e) ==> e.spec_marker() == self.marker,
    {
        Ok(Resync {
            type_: self.type_,
            diff_time: self.diff_time,
            diff_index_max: self.diff_index_max,
            diff_index_min: self.diff_index_min,
            marker: self.marker,
        })
    }
}

/// Base URL.
#[derive(Debug, Clone, PartialEq, Eq, Default)]
pub struct BaseURL {
    base: XsAnyURI,
    service_location: Option<String>,
    byte_range: Option<String>,
    availability_time_offset: Option<XsDouble>,
    availability_time_complete: Option<bool>,
    time_shift_buffer_depth: Option<XsDuration>,
    range_access: Option<bool>,
}

impl BaseURL {
    pub closed spec fn spec_base(&self) -> XsAnyURI {
        self.base
    }

    pub closed spec fn spec_service_location(&self) -> Option<String> {
        self.service_location
    }

    pub closed spec fn spec_byte_range(&self) -> Option<String> {
        self.byte_range
    }

    pub closed spec fn spec_availability_time_offset(&self) -> Option<XsDouble> {
        self.availability_time_offset
    }

    pub closed spec fn spec_availability_time_complete(&self) -> Option<bool> {
        self.availability_time_complete
    }

    pub closed spec fn spec_time_shift_buffer_depth(&self) -> Option<XsDuration> {
        self.time_shift_buffer_depth
    }

    pub closed spec fn spec_range_access(&self) -> Option<bool> {
        self.range_access
    }

    pub fn base(&self) -> (r: &XsAnyURI)
        ensures
            *r == self.spec_base(),
    {
        &self.base
    }

    pub fn service_location(&self) -> (r: &Option<String>)
        ensures
            *r == self.spec_service_location(),
    {
        &self.service_location
    }

    pub fn byte_range(&self) -> (r: &Option<String>)
        ensures
            *r == self.spec_byte_range(),
    {
        &self.byte_range
    }

    pub fn availability_time_offset(&self) -> (r: &Option<XsDouble>)
        ensures
            *r == self.spec_availability_time_offset(),
    {
        &self.availability_time_offset
    }

    pub fn availability_time_complete(&self) -> (r: &Option<bool>)
        ensures
            *r == self.spec_availability_time_complete(),
    {
        &self.availability_time_complete
    }

    pub fn time_shift_buffer_depth(&self) -> (r: &Option<XsDuration>)
        ensures
            *r == self.spec_time_shift_buffer_depth(),
    {
        &self.time_shift_buffer_depth
    }

    pub fn range_access(&self) -> (r: &Option<bool>)
        ensures
            *r == self.spec_range_access(),
    {
        &self.range_access
    }
}

/// Accumulates the fields of a [`BaseURL`]; [`BaseURLBuilder::build`] checks them.
#[derive(Debug, Default, Clone)]
pub struct BaseURLBuilder {
    pub base: Option<XsAnyURI>,
    pub service_location: Option<String>,
    pub byte_range: Option<String>,
    pub availability_time_offset: Option<XsDouble>,
    pub availability_time_complete: Option<bool>,
    pub time_shift_buffer_depth: Option<XsDuration>,
    pub range_access: Option<bool>,
}

impl BaseURLBuilder {
    pub fn base(self, v: &str) -> (r: Self)
        ensures
            (r.base matches Some(x) && x.view() == v@),
            r == (BaseURLBuilder { base: r.base, ..self }),
    {
        BaseURLBuilder { base: Some(XsAnyURI::from(v)), ..self }
    }

    pub fn service_location(self, v: &str) -> (r: Self)
        ensures
            (r.service_location matches Some(x) && x@ == v@),
            r == (BaseURLBuilder { service_location: r.service_location, ..self }),
    {
        BaseURLBuilder { service_location: Some(v.to_owned()), ..self }
    }

    pub fn byte_range(self, v: &str) -> (r: Self)
        ensures
            (r.byte_range matches Some(x) && x@ == v@),
            r == (BaseURLBuilder { byte_range: r.byte_range, ..self }),
    {
        BaseURLBuilder { byte_range: Some(v.to_owned()), ..self }
    }

    pub fn availability_time_offset(self, v: XsDouble) -> (r: Self)
        ensures
            r == (BaseURLBuilder { availability_time_offset: Some(v), ..self }),
    {
        BaseURLBuilder { availability_time_offset: Some(v), ..self }
    }

    pub fn availability_time_complete(self, v: bool) -> (r: Self)
        ensures
            r == (BaseURLBuilder { availability_time_complete: Some(v), ..self }),
    {
        BaseURLBuilder { availability_time_complete: Some(v), ..self }
    }

    pub fn time_shift_buffer_depth(self, v: XsDuration) -> (r: Self)
        ensures
            r == (BaseURLBuilder { time_shift_buffer_depth: Some(v), ..self }),
    {
        BaseURLBuilder { time_shift_buffer_depth: Some(v), ..self }
    }

    pub fn range_access(self, v: bool) -> (r: Self)
        ensures
            r == (BaseURLBuilder { range_access: Some(v), ..self }),
    {
        BaseURLBuilder { range_access: Some(v), ..self }
    }

    /// Checks the rules and makes the [`BaseURL`].
    pub fn build(self) -> (r: Result<BaseURL, MpdError>)
        ensures
            r is Ok,
            r matches Ok(e) ==> (self.base is Some ==> self.base == Some(e.spec_base())),
            r matches Ok(e) ==> e.spec_service_location() == self.service_location,
            r matches Ok(e) ==> e.spec_byte_range() == self.byte_range,
            r matches Ok(e) ==> e.spec_availability_time_offset() == self.availability_time_offset,
            r matches Ok(e) ==>
                e.spec_availability_time_complete() == self.availability_time_complete,
            r matches Ok(e) ==> e.spec_time_shift_buffer_depth() == self.time_shift_buffer_depth,
            r matches Ok(e) ==> e.spec_range_access() == self.range_access,
    {
        let base = match self.base {
            Some(v) => v,
            None => XsAnyURI::from(""),
        };
        Ok(BaseURL {
            base,
            service_location: self.service_location,
            byte_range: self.byte_range,
            availability_time_offset: self.availability_time_offset,
            availability_time_complete: self.availability_time_complete,
            time_shift_buffer_depth: self.time_shift_buffer_depth,
            range_access: self.range_access,
        })
    }
}

/// Buffer model pair.
///
/// Built only through [`ModelPairBuilder`], which checks its rules.
#[derive(Debug, Clone, PartialEq, Eq)]
pub struct ModelPair {
    buffer_time: XsDuration,
    bandwidth: u32,
}

impl ModelPair {
    pub closed spec fn spec_buffer_time(&self) -> XsDuration {
        self.buffer_time
    }

    pub closed spec fn spec_bandwidth(&self) -> u32 {
        self.bandwidth
    }

    pub fn buffer_time(&self) -> (r: &XsDuration)
        ensures
            *r == self.spec_buffer_time(),
    {
        &self.buffer_time
    }

    pub fn bandwidth(&self) -> (r: &u32)
        ensures
            *r == self.spec_bandwidth(),
    {
        &self.bandwidth
    }
}

/// Accumulates the fields of a [`ModelPair`]; [`ModelPairBuilder::build`] checks them.
#[derive(Debug, Default, Clone)]
pub struct ModelPairBuilder {
    pub buffer_time: Option<XsDuration>,
    pub bandwidth: Option<u32>,
}

impl ModelPairBuilder {
    /// Whether the fields meet the rules of a [`ModelPair`].
    pub open spec fn meets_rules(&self) -> bool {
        self.first_broken_rule() is None
    }

    pub fn buffer_time(self, v: XsDuration) -> (r: Self)
        ensures
            r == (ModelPairBuilder { buffer_time: Some(v), ..self }),
    {
        ModelPairBuilder { buffer_time: Some(v), ..self }
    }

    pub fn bandwidth(self, v: u32) -> (r: Self)
        ensures
            r == (ModelPairBuilder { bandwidth: Some(v), ..self }),
    {
        ModelPairBuilder { bandwidth: Some(v), ..self }
    }

    /// Checks the rules and makes the [`ModelPair`].
    pub fn build(self) -> (r: Result<ModelPair, MpdError>)
        ensures
            r is Ok <==> self.meets_rules(),
            self.first_broken_rule() matches Some(e) ==> r == Err::<ModelPair, MpdError>(e),
            r matches Ok(e) ==> self.buffer_time == Some(e.spec_buffer_time()),
            r matches Ok(e) ==> self.bandwidth == Some(e.spec_bandwidth()),
    {
        if let Err(e) = self.validate() {
            return Err(e);
        }
        let buffer_time = match self.buffer_time {
            Some(v) => v,
            None => return Err(MpdError::MissingRequiredField("buffer_time")),
        };
        let bandwidth = match self.bandwidth {
            Some(v) => v,
            None => return Err(MpdError::MissingRequiredField("bandwidth")),
        };
        Ok(ModelPair {
            buffer_time,
            bandwidth,
        })
    }
}

impl NeedValidater for ModelPairBuilder {
    open spec fn first_broken_rule(&self) -> Option<MpdError> {
        if self.buffer_time is None {
            Some(MpdError::MissingRequiredField("buffer_time"))
        } else if self.bandwidth is None {
            Some(MpdError::MissingRequiredField("bandwidth"))
        } else {
            None
        }
    }

    fn validate(&self) -> (r: Result<(), MpdError>) {
        if self.buffer_time.is_none() {
            return Err(MpdError::MissingRequiredField("buffer_time"));
        }
        if self.bandwidth.is_none() {
            return Err(MpdError::MissingRequiredField("bandwidth"));
        }
        Ok(())
    }
}

/// Extended bandwidth.
#[derive(Debug, Clone, PartialEq, Eq, Default)]
pub struct ExtendedBandwidth {
    vbr: Option<bool>,
    model_pair: Option<Vec<ModelPair>>,
}

impl ExtendedBandwidth {
    pub closed spec fn spec_vbr(&self) -> Option<bool> {
        self.vbr
    }

    pub closed spec fn spec_model_pair(&self) -> Option<Vec<ModelPair>> {
        self.model_pair
    }

    pub fn vbr(&self) -> (r: &Option<bool>)
        ensures
            *r == self.spec_vbr(),
    {
        &self.vbr
    }

    pub fn model_pair(&self) -> (r: &Option<Vec<ModelPair>>)
        ensures
            *r == self.spec_model_pair(),
    {
        &self.model_pair
    }
}

/// Accumulates the fields of a [`ExtendedBandwidth`]; [`ExtendedBandwidthBuilder::build`] checks
/// them.
#[derive(Debug, Default, Clone)]
pub struct ExtendedBandwidthBuilder {
    pub vbr: Option<bool>,
    pub model_pair: Option<Vec<ModelPair>>,
}

impl ExtendedBandwidthBuilder {
    pub fn vbr(self, v: bool) -> (r: Self)
        ensures
            r == (ExtendedBandwidthBuilder { vbr: Some(v), ..self }),
    {
        ExtendedBandwidthBuilder { vbr: Some(v), ..self }
    }

    pub fn model_pair(self, v: Vec<ModelPair>) -> (r: Self)
        ensures
            r == (ExtendedBandwidthBuilder { model_pair: Some(v), ..self }),
    {
        ExtendedBandwidthBuilder { model_pair: Some(v), ..self }
    }

    /// Checks the rules and makes the [`ExtendedBandwidth`].
    pub fn build(self) -> (r: Result<ExtendedBandwidth, MpdError>)
        ensures
            r is Ok,
            r matches Ok(e) ==> e.spec_vbr() == self.vbr,
            r matches Ok(e) ==> e.spec_model_pair() == self.model_pair,
    {
        Ok(ExtendedBandwidth {
            vbr: self.vbr,
            model_pair: self.model_pair,
        })
    }
}

/// Content component.
#[derive(Debug, Clone, PartialEq, Eq, Default)]
pub struct ContentComponent {
    id: Option<u32>,
    lang: Option<XsLanguage>,
    content_type: Option<ContentType>,
    par: Option<Ratio>,
    tag: Option<Tag>,
    accessibility: Option<Vec<Descriptor>>,
    role: Option<Vec<Descriptor>>,
    rating: Option<Vec<Descriptor>>,
    viewpoint: Option<Vec<Descriptor>>,
}

impl ContentComponent {
    pub closed spec fn spec_id(&self) -> Option<u32> {
        self.id
    }

    pub closed spec fn spec_lang(&self) -> Option<XsLanguage> {
        self.lang
    }

    pub closed spec fn spec_content_type(&self) -> Option<ContentType> {
        self.content_type
    }

    pub closed spec fn spec_par(&self) -> Option<Ratio> {
        self.par
    }

    pub closed spec fn spec_tag(&self) -> Option<Tag> {
        self.tag
    }

    pub closed spec fn spec_accessibility(&self) -> Option<Vec<Descriptor>> {
        self.accessibility
    }

    pub closed spec fn spec_role(&self) -> Option<Vec<Descriptor>> {
        self.role
    }

    pub closed spec fn spec_rating(&self) -> Option<Vec<Descriptor>> {
        self.rating
    }

    pub closed spec fn spec_viewpoint(&self) -> Option<Vec<Descriptor>> {
        self.viewpoint
    }

    pub fn id(&self) -> (r: &Option<u32>)
        ensures
            *r == self.spec_id(),
    {
        &self.id
    }

    pub fn lang(&self) -> (r: &Option<XsLanguage>)
        ensures
            *r == self.spec_lang(),
    {
        &self.lang
    }

    pub fn content_type(&self) -> (r: &Option<ContentType>)
        ensures
            *r == self.spec_content_type(),
    {
        &self.content_type
    }

    pub fn par(&self) -> (r: &Option<Ratio>)
        ensures
            *r == self.spec_par(),
    {
        &self.par
    }

    pub fn tag(&self) -> (r: &Option<Tag>)
        ensures
            *r == self.spec_tag(),
    {
        &self.tag
    }

    pub fn accessibility(&self) -> (r: &Option<Vec<Descriptor>>)
        ensures
            *r == self.spec_accessibility(),
    {
        &self.accessibility
    }

    pub fn role(&self) -> (r: &Option<Vec<Descriptor>>)
        ensures
            *r == self.spec_role(),
    {
        &self.role
    }

    pub fn rating(&self) -> (r: &Option<Vec<Descriptor>>)
        ensures
            *r == self.spec_rating(),
    {
        &self.rating
    }

    pub fn viewpoint(&self) -> (r: &Option<Vec<Descriptor>>)
        ensures
            *r == self.spec_viewpoint(),
    {
        &self.viewpoint
    }
}

/// Accumulates the fields of a [`ContentComponent`]; [`ContentComponentBuilder::build`] checks
/// them.
#[derive(Debug, Default, Clone)]
pub struct ContentComponentBuilder {
    pub id: Option<u32>,
    pub lang: Option<XsLanguage>,
    pub content_type: Option<ContentType>,
    pub par: Option<Ratio>,
    pub tag: Option<Tag>,
    pub accessibility: Option<Vec<Descriptor>>,
    pub role: Option<Vec<Descriptor>>,
    pub rating: Option<Vec<Descriptor>>,
    pub viewpoint: Option<Vec<Descriptor>>,
}

impl ContentComponentBuilder {
    pub fn id(self, v: u32) -> (r: Self)
        ensures
            r == (ContentComponentBuilder { id: Some(v), ..self }),
    {
        ContentComponentBuilder { id: Some(v), ..self }
    }

    pub fn lang(self, v: XsLanguage) -> (r: Self)
        ensures
            r == (ContentComponentBuilder { lang: Some(v), ..self }),
    {
        ContentComponentBuilder { lang: Some(v), ..self }
    }

    pub fn content_type(self, v: ContentType) -> (r: Self)
        ensures
            r == (ContentComponentBuilder { content_type: Some(v), ..self }),
    {
        ContentComponentBuilder { content_type: Some(v), ..self }
    }

    pub fn par(self, v: Ratio) -> (r: Self)
        ensures
            r == (ContentComponentBuilder { par: Some(v), ..self }),
    {
        ContentComponentBuilder { par: Some(v), ..self }
    }

    pub fn tag(self, v: &str) -> (r: Self)
        ensures
            (r.tag matches Some(x) && x.view() == v@),
            r == (ContentComponentBuilder { tag: r.tag, ..self }),
    {
        ContentComponentBuilder { tag: Some(Tag::from(v)), ..self }
    }

    pub fn accessibility(self, v: Vec<Descriptor>) -> (r: Self)
        ensures
            r == (ContentComponentBuilder { accessibility: Some(v), ..self }),
    {
        ContentComponentBuilder { accessibility: Some(v), ..self }
    }

    pub fn role(self, v: Vec<Descriptor>) -> (r: Self)
        ensures
            r == (ContentComponentBuilder { role: Some(v), ..self }),
    {
        ContentComponentBuilder { role: Some(v), ..self }
    }

    pub fn rating(self, v: Vec<Descriptor>) -> (r: Self)
        ensures
            r == (ContentComponentBuilder { rating: Some(v), ..self }),
    {
        ContentComponentBuilder { rating: Some(v), ..self }
    }

    pub fn viewpoint(self, v: Vec<Descriptor>) -> (r: Self)
        ensures
            r == (ContentComponentBuilder { viewpoint: Some(v), ..self }),
    {
        ContentComponentBuilder { viewpoint: Some(v), ..self }
    }

    /// Checks the rules and makes the [`ContentComponent`].
    pub fn build(self) -> (r: Result<ContentComponent, MpdError>)
        ensures
            r is Ok,
            r matches Ok(e) ==> e.spec_id() == self.id,
            r matches Ok(e) ==> e.spec_lang() == self.lang,
            r matches Ok(e) ==> e.spec_content_type() == self.content_type,
            r matches Ok(e) ==> e.spec_par() == self.par,
            r matches Ok(e) ==> e.spec_tag() == self.tag,
            r matches Ok(e) ==> e.spec_accessibility() == self.accessibility,
            r matches Ok(e) ==> e.spec_role() == self.role,
            r matches Ok(e) ==> e.spec_rating() == self.rating,
            r matches Ok(e) ==> e.spec_viewpoint() == self.viewpoint,
    {
        Ok(ContentComponent {
            id: self.id,
            lang: self.lang,
            content_type: self.content_type,
            par: self.par,
            tag: self.tag,
            accessibility: self.accessibility,
            role: self.role,
            rating: self.rating,
            viewpoint: self.viewpoint,
        })
    }
}

/// Latency.
#[derive(Debug, Clone, PartialEq, Eq, Default)]
pub struct Latency {
    reference_id: Option<i32>,
    target_latency: Option<i32>,
    max_latency: Option<i32>,
    min_latency: Option<i32>,
}

impl Latency {
    pub closed spec fn spec_reference_id(&self) -> Option<i32> {
        self.reference_id
    }

    pub closed spec fn spec_target_latency(&self) -> Option<i32> {
        self.target_latency
    }

    pub closed spec fn spec_max_latency(&self) -> Option<i32> {
        self.max_latency
    }

    pub closed spec fn spec_min_latency(&self) -> Option<i32> {
        self.min_latency
    }

    pub fn reference_id(&self) -> (r: &Option<i32>)
        ensures
            *r == self.spec_reference_id(),
    {
        &self.reference_id
    }

    pub fn target_latency(&self) -> (r: &Option<i32>)
        ensures
            *r == self.spec_target_latency(),
    {
        &self.target_latency
    }

    pub fn max_latency(&self) -> (r: &Option<i32>)
        ensures
            *r == self.spec_max_latency(),
    {
        &self.max_latency
    }

    pub fn min_latency(&self) -> (r: &Option<i32>)
        ensures
            *r == self.spec_min_latency(),
    {
        &self.min_latency
    }
}

/// Accumulates the fields of a [`Latency`]; [`LatencyBuilder::build`] checks them.
#[derive(Debug, Default, Clone)]
pub struct LatencyBuilder {
    pub reference_id: Option<i32>,
    pub target_latency: Option<i32>,
    pub max_latency: Option<i32>,
    pub min_latency: Option<i32>,
}

impl LatencyBuilder {
    pub fn reference_id(self, v: i32) -> (r: Self)
        ensures
            r == (LatencyBuilder { reference_id: Some(v), ..self }),
    {
        LatencyBuilder { reference_id: Some(v), ..self }
    }

    pub fn target_latency(self, v: i32) -> (r: Self)
        ensures
            r == (LatencyBuilder { target_latency: Some(v), ..self }),
    {
        LatencyBuilder { target_latency: Some(v), ..self }
    }

    pub fn max_latency(self, v: i32) -> (r: Self)
        ensures
            r == (LatencyBuilder { max_latency: Some(v), ..self }),
    {
        LatencyBuilder { max_latency: Some(v), ..self }
    }

    pub fn min_latency(self, v: i32) -> (r: Self)
        ensures
            r == (LatencyBuilder { min_latency: Some(v), ..self }),
    {
        LatencyBuilder { min_latency: Some(v), ..self }
    }

    /// Checks the rules and makes the [`Latency`].
    pub fn build(self) -> (r: Result<Latency, MpdError>)
        ensures
            r is Ok,
            r matches Ok(e) ==> e.spec_reference_id() == self.reference_id,
            r matches Ok(e) ==> e.spec_target_latency() == self.target_latency,
            r matches Ok(e) ==> e.spec_max_latency() == self.max_latency,
            r matches Ok(e) ==> e.spec_min_latency() == self.min_latency,
    {
        Ok(Latency {
            reference_id: self.reference_id,
            target_latency: self.target_latency,
            max_latency: self.max_latency,
            min_latency: self.min_latency,
        })
    }
}

/// Playback rate.
#[derive(Debug, Clone, PartialEq, Eq, Default)]
pub struct PlaybackRate {
    max_playback_rate: Option<XsDouble>,
    min_playback_rate: Option<XsDouble>,
}

impl PlaybackRate {
    pub closed spec fn spec_max_playback_rate(&self) -> Option<XsDouble> {
        self.max_playback_rate
    }

    pub closed spec fn spec_min_playback_rate(&self) -> Option<XsDouble> {
        self.min_playback_rate
    }

    pub fn max_playback_rate(&self) -> (r: &Option<XsDouble>)
        ensures
            *r == self.spec_max_playback_rate(),
    {
        &self.max_playback_rate
    }

    pub fn min_playback_rate(&self) -> (r: &Option<XsDouble>)
        ensures
            *r == self.spec_min_playback_rate(),
    {
        &self.min_playback_rate
    }
}

/// Accumulates the fields of a [`PlaybackRate`]; [`PlaybackRateBuilder::build`] checks them.
#[derive(Debug, Default, Clone)]
pub struct PlaybackRateBuilder {
    pub max_playback_rate: Option<XsDouble>,
    pub min_playback_rate: Option<XsDouble>,
}

impl PlaybackRateBuilder {
    pub fn max_playback_rate(self, v: XsDouble) -> (r: Self)
        ensures
            r == (PlaybackRateBuilder { max_playback_rate: Some(v), ..self }),
    {
        PlaybackRateBuilder { max_playback_rate: Some(v), ..self }
    }

    pub fn min_playback_rate(self, v: XsDouble) -> (r: Self)
        ensures
            r == (PlaybackRateBuilder { min_playback_rate: Some(v), ..self }),
    {
        PlaybackRateBuilder { min_playback_rate: Some(v), ..self }
    }

    /// Checks the rules and makes the [`PlaybackRate`].
    pub fn build(self) -> (r: Result<PlaybackRate, MpdError>)
        ensures
            r is Ok,
            r matches Ok(e) ==> e.spec_max_playback_rate() == self.max_playback_rate,
            r matches Ok(e) ==> e.spec_min_playback_rate() == self.min_playback_rate,
    {
        Ok(PlaybackRate {
            max_playback_rate: self.max_playback_rate,
            min_playback_rate: self.min_playback_rate,
        })
    }
}

/// Operating quality.
#[derive(Debug, Clone, PartialEq, Eq, Default)]
pub struct OperatingQuality {
    media_type: Option<QualityMediaType>,
    min_quality_ranking: Option<i32>,
    max_quality_ranking: Option<i32>,
    target_quality_ranking: Option<i32>,
    quality_ranking_type: Option<XsAnyURI>,
    max_quality_difference: Option<i32>,
}

impl OperatingQuality {
    pub closed spec fn spec_media_type(&self) -> Option<QualityMediaType> {
        self.media_type
    }

    pub closed spec fn spec_min_quality_ranking(&self) -> Option<i32> {
        self.min_quality_ranking
    }

    pub closed spec fn spec_max_quality_ranking(&self) -> Option<i32> {
        self.max_quality_ranking
    }

    pub closed spec fn spec_target_quality_ranking(&self) -> Option<i32> {
        self.target_quality_ranking
    }

    pub closed spec fn spec_quality_ranking_type(&self) -> Option<XsAnyURI> {
        self.quality_ranking_type
    }

    pub closed spec fn spec_max_quality_difference(&self) -> Option<i32> {
        self.max_quality_difference
    }

    pub fn media_type(&self) -> (r: &Option<QualityMediaType>)
        ensures
            *r == self.spec_media_type(),
    {
        &self.media_type
    }

    pub fn min_quality_ranking(&self) -> (r: &Option<i32>)
        ensures
            *r == self.spec_min_quality_ranking(),
    {
        &self.min_quality_ranking
    }

    pub fn max_quality_ranking(&self) -> (r: &Option<i32>)
        ensures
            *r == self.spec_max_quality_ranking(),
    {
        &self.max_quality_ranking
    }

    pub fn target_quality_ranking(&self) -> (r: &Option<i32>)
        ensures
            *r == self.spec_target_quality_ranking(),
    {
        &self.target_quality_ranking
    }

    pub fn quality_ranking_type(&self) -> (r: &Option<XsAnyURI>)
        ensures
            *r == self.spec_quality_ranking_type(),
    {
        &self.quality_ranking_type
    }

    pub fn max_quality_difference(&self) -> (r: &Option<i32>)
        ensures
            *r == self.spec_max_quality_difference(),
    {
        &self.max_quality_difference
    }
}

/// Accumulates the fields of a [`OperatingQuality`]; [`OperatingQualityBuilder::build`] checks
/// them.
#[derive(Debug, Default, Clone)]
pub struct OperatingQualityBuilder {
    pub media_type: Option<QualityMediaType>,
    pub min_quality_ranking: Option<i32>,
    pub max_quality_ranking: Option<i32>,
    pub target_quality_ranking: Option<i32>,
    pub quality_ranking_type: Option<XsAnyURI>,
    pub max_quality_difference: Option<i32>,
}

impl OperatingQualityBuilder {
    pub fn media_type(self, v: QualityMediaType) -> (r: Self)
        ensures
            r == (OperatingQualityBuilder { media_type: Some(v), ..self }),
    {
        OperatingQualityBuilder { media_type: Some(v), ..self }
    }

    pub fn min_quality_ranking(self, v: i32) -> (r: Self)
        ensures
            r == (OperatingQualityBuilder { min_quality_ranking: Some(v), ..self }),
    {
        OperatingQualityBuilder { min_quality_ranking: Some(v), ..self }
    }

    pub fn max_quality_ranking(self, v: i32) -> (r: Self)
        ensures
            r == (OperatingQualityBuilder { max_quality_ranking: Some(v), ..self }),
    {
        OperatingQualityBuilder { max_quality_ranking: Some(v), ..self }
    }

    pub fn target_quality_ranking(self, v: i32) -> (r: Self)
        ensures
            r == (OperatingQualityBuilder { target_quality_ranking: Some(v), ..self }),
    {
        OperatingQualityBuilder { target_quality_ranking: Some(v), ..self }
    }

    pub fn quality_ranking_type(self, v: &str) -> (r: Self)
        ensures
            (r.quality_ranking_type matches Some(x) && x.view() == v@),
            r == (OperatingQualityBuilder { quality_ranking_type: r.quality_ranking_type, ..self }),
    {
        OperatingQualityBuilder { quality_ranking_type: Some(XsAnyURI::from(v)), ..self }
    }

    pub fn max_quality_difference(self, v: i32) -> (r: Self)
        ensures
            r == (OperatingQualityBuilder { max_quality_difference: Some(v), ..self }),
    {
        OperatingQualityBuilder { max_quality_difference: Some(v), ..self }
    }

    /// Checks the rules and makes the [`OperatingQuality`].
    pub fn build(self) -> (r: Result<OperatingQuality, MpdError>)
        ensures
            r is Ok,
            r matches Ok(e) ==> e.spec_media_type() == self.media_type,
            r matches Ok(e) ==> e.spec_min_quality_ranking() == self.min_quality_ranking,
            r matches Ok(e) ==> e.spec_max_quality_ranking() == self.max_quality_ranking,
            r matches Ok(e) ==> e.spec_target_quality_ranking() == self.target_quality_ranking,
            r matches Ok(e) ==> e.spec_quality_ranking_type() == self.quality_ranking_type,
            r matches Ok(e) ==> e.spec_max_quality_difference() == self.max_quality_difference,
    {
        Ok(OperatingQuality {
            media_type: self.media_type,
            min_quality_ranking: self.min_quality_ranking,
            max_quality_ranking: self.max_quality_ranking,
            target_quality_ranking: self.target_quality_ranking,
            quality_ranking_type: self.quality_ranking_type,
            max_quality_difference: self.max_quality_difference,
        })
    }
}

/// Operating bandwidth.
#[derive(Debug, Clone, PartialEq, Eq, Default)]
pub struct OperatingBandwidth {
    media_type: Option<BandwidthMediaType>,
    min_bandwidth: Option<i32>,
    max_bandwidth: Option<i32>,
    target_bandwidth: Option<i32>,
}

impl OperatingBandwidth {
    pub closed spec fn spec_media_type(&self) -> Option<BandwidthMediaType> {
        self.media_type
    }

    pub closed spec fn spec_min_bandwidth(&self) -> Option<i32> {
        self.min_bandwidth
    }

    pub closed spec fn spec_max_bandwidth(&self) -> Option<i32> {
        self.max_bandwidth
    }

    pub closed spec fn spec_target_bandwidth(&self) -> Option<i32> {
        self.target_bandwidth
    }

    pub fn media_type(&self) -> (r: &Option<BandwidthMediaType>)
        ensures
            *r == self.spec_media_type(),
    {
        &self.media_type
    }

    pub fn min_bandwidth(&self) -> (r: &Option<i32>)
        ensures
            *r == self.spec_min_bandwidth(),
    {
        &self.min_bandwidth
    }

    pub fn max_bandwidth(&self) -> (r: &Option<i32>)
        ensures
            *r == self.spec_max_bandwidth(),
    {
        &self.max_bandwidth
    }

    pub fn target_bandwidth(&self) -> (r: &Option<i32>)
        ensures
            *r == self.spec_target_bandwidth(),
    {
        &self.target_bandwidth
    }
}

/// Accumulates the fields of a [`OperatingBandwidth`]; [`OperatingBandwidthBuilder::build`] checks
/// them.
#[derive(Debug, Default, Clone)]
pub struct OperatingBandwidthBuilder {
    pub media_type: Option<BandwidthMediaType>,
    pub min_bandwidth: Option<i32>,
    pub max_bandwidth: Option<i32>,
    pub target_bandwidth: Option<i32>,
}

impl OperatingBandwidthBuilder {
    pub fn media_type(self, v: BandwidthMediaType) -> (r: Self)
        ensures
            r == (OperatingBandwidthBuilder { media_type: Some(v), ..self }),
    {
        OperatingBandwidthBuilder { media_type: Some(v), ..self }
    }

    pub fn min_bandwidth(self, v: i32) -> (r: Self)
        ensures
            r == (OperatingBandwidthBuilder { min_bandwidth: Some(v), ..self }),
    {
        OperatingBandwidthBuilder { min_bandwidth: Some(v), ..self }
    }

    pub fn max_bandwidth(self, v: i32) -> (r: Self)
        ensures
            r == (OperatingBandwidthBuilder { max_bandwidth: Some(v), ..self }),
    {
        OperatingBandwidthBuilder { max_bandwidth: Some(v), ..self }
    }

    pub fn target_bandwidth(self, v: i32) -> (r: Self)
        ensures
            r == (OperatingBandwidthBuilder { target_bandwidth: Some(v), ..self }),
    {
        OperatingBandwidthBuilder { target_bandwidth: Some(v), ..self }
    }

    /// Checks the rules and makes the [`OperatingBandwidth`].
    pub fn build(self) -> (r: Result<OperatingBandwidth, MpdError>)
        ensures
            r is Ok,
            r matches Ok(e) ==> e.spec_media_type() == self.media_type,
            r matches Ok(e) ==> e.spec_min_bandwidth() == self.min_bandwidth,
            r matches Ok(e) ==> e.spec_max_bandwidth() == self.max_bandwidth,
            r matches Ok(e) ==> e.spec_target_bandwidth() == self.target_bandwidth,
    {
        Ok(OperatingBandwidth {
            media_type: self.media_type,
            min_bandwidth: self.min_bandwidth,
            max_bandwidth: self.max_bandwidth,
            target_bandwidth: self.target_bandwidth,
        })
    }
}

/// Service description.
///
/// Built only through [`ServiceDescriptionBuilder`], which checks its rules.
#[derive(Debug, Clone, PartialEq, Eq)]
pub struct ServiceDescription {
    id: u32,
    scope: Option<Vec<Descriptor>>,
    latency: Option<Vec<Latency>>,
    playback_rate: Option<Vec<PlaybackRate>>,
    operating_quality: Option<Vec<OperatingQuality>>,
    operating_bandwidth: Option<Vec<OperatingBandwidth>>,
}

impl ServiceDescription {
    pub closed spec fn spec_id(&self) -> u32 {
        self.id
    }

    pub closed spec fn spec_scope(&self) -> Option<Vec<Descriptor>> {
        self.scope
    }

    pub closed spec fn spec_latency(&self) -> Option<Vec<Latency>> {
        self.latency
    }

    pub closed spec fn spec_playback_rate(&self) -> Option<Vec<PlaybackRate>> {
        self.playback_rate
    }

    pub closed spec fn spec_operating_quality(&self) -> Option<Vec<OperatingQuality>> {
        self.operating_quality
    }

    pub closed spec fn spec_operating_bandwidth(&self) -> Option<Vec<OperatingBandwidth>> {
        self.operating_bandwidth
    }

    pub fn id(&self) -> (r: &u32)
        ensures
            *r == self.spec_id(),
    {
        &self.id
    }

    pub fn scope(&self) -> (r: &Option<Vec<Descriptor>>)
        ensures
            *r == self.spec_scope(),
    {
        &self.scope
    }

    pub fn latency(&self) -> (r: &Option<Vec<Latency>>)
        ensures
            *r == self.spec_latency(),
    {
        &self.latency
    }

    pub fn playback_rate(&self) -> (r: &Option<Vec<PlaybackRate>>)
        ensures
            *r == self.spec_playback_rate(),
    {
        &self.playback_rate
    }

    pub fn operating_quality(&self) -> (r: &Option<Vec<OperatingQuality>>)
        ensures
            *r == self.spec_operating_quality(),
    {
        &self.operating_quality
    }

    pub fn operating_bandwidth(&self) -> (r: &Option<Vec<OperatingBandwidth>>)
        ensures
            *r == self.spec_operating_bandwidth(),
    {
        &self.operating_bandwidth
    }
}

/// Accumulates the fields of a [`ServiceDescription`]; [`ServiceDescriptionBuilder::build`] checks
/// them.
#[derive(Debug, Default, Clone)]
pub struct ServiceDescriptionBuilder {
    pub id: Option<u32>,
    pub scope: Option<Vec<Descriptor>>,
    pub latency: Option<Vec<Latency>>,
    pub playback_rate: Option<Vec<PlaybackRate>>,
    pub operating_quality: Option<Vec<OperatingQuality>>,
    pub operating_bandwidth: Option<Vec<OperatingBandwidth>>,
}

impl ServiceDescriptionBuilder {
    /// Whether the fields meet the rules of a [`ServiceDescription`].
    pub open spec fn meets_rules(&self) -> bool {
        self.first_broken_rule() is None
    }

    pub fn id(self, v: u32) -> (r: Self)
        ensures
            r == (ServiceDescriptionBuilder { id: Some(v), ..self }),
    {
        ServiceDescriptionBuilder { id: Some(v), ..self }
    }

    pub fn scope(self, v: Vec<Descriptor>) -> (r: Self)
        ensures
            r == (ServiceDescriptionBuilder { scope: Some(v), ..self }),
    {
        ServiceDescriptionBuilder { scope: Some(v), ..self }
    }

    pub fn latency(self, v: Vec<Latency>) -> (r: Self)
        ensures
            r == (ServiceDescriptionBuilder { latency: Some(v), ..self }),
    {
        ServiceDescriptionBuilder { latency: Some(v), ..self }
    }

    pub fn playback_rate(self, v: Vec<PlaybackRate>) -> (r: Self)
        ensures
            r == (ServiceDescriptionBuilder { playback_rate: Some(v), ..self }),
    {
        ServiceDescriptionBuilder { playback_rate: Some(v), ..self }
    }

    pub fn operating_quality(self, v: Vec<OperatingQuality>) -> (r: Self)
        ensures
            r == (ServiceDescriptionBuilder { operating_quality: Some(v), ..self }),
    {
        ServiceDescriptionBuilder { operating_quality: Some(v), ..self }
    }

    pub fn operating_bandwidth(self, v: Vec<OperatingBandwidth>) -> (r: Self)
        ensures
            r == (ServiceDescriptionBuilder { operating_bandwidth: Some(v), ..self }),
    {
        ServiceDescriptionBuilder { operating_bandwidth: Some(v), ..self }
    }

    /// Checks the rules and makes the [`ServiceDescription`].
    pub fn build(self) -> (r: Result<ServiceDescription, MpdError>)
        ensures
            r is Ok <==> self.meets_rules(),
            self.first_broken_rule() matches Some(e) ==>
                r == Err::<ServiceDescription, MpdError>(e),
            r matches Ok(e) ==> self.id == Some(e.spec_id()),
            r matches Ok(e) ==> e.spec_scope() == self.scope,
            r matches Ok(e) ==> e.spec_latency() == self.latency,
            r matches Ok(e) ==> e.spec_playback_rate() == self.playback_rate,
            r matches Ok(e) ==> e.spec_operating_quality() == self.operating_quality,
            r matches Ok(e) ==> e.spec_operating_bandwidth() == self.operating_bandwidth,
    {
        if let Err(e) = self.validate() {
            return Err(e);
        }
        let id = match self.id {
            Some(v) => v,
            None => return Err(MpdError::MissingRequiredField("id")),
        };
        Ok(ServiceDescription {
            id,
            scope: self.scope,
            latency: self.latency,
            playback_rate: self.playback_rate,
            operating_quality: self.operating_quality,
            operating_bandwidth: self.operating_bandwidth,
        })
    }
}

impl NeedValidater for ServiceDescriptionBuilder {
    open spec fn first_broken_rule(&self) -> Option<MpdError> {
        if self.id is None {
            Some(MpdError::MissingRequiredField("id"))
        } else {
            None
        }
    }

    fn validate(&self) -> (r: Result<(), MpdError>) {
        if self.id.is_none() {
            return Err(MpdError::MissingRequiredField("id"));
        }
        Ok(())
    }
}

/// Subset.
///
/// Built only through [`SubsetBuilder`], which checks its rules.
#[derive(Debug, Clone, PartialEq, Eq)]
pub struct Subset {
    contains: UIntVector,
    id: Option<String>,
}

impl Subset {
    pub closed spec fn spec_contains(&self) -> UIntVector {
        self.contains
    }

    pub closed spec fn spec_id(&self) -> Option<String> {
        self.id
    }

    pub fn contains(&self) -> (r: &UIntVector)
        ensures
            *r == self.spec_contains(),
    {
        &self.contains
    }

    pub fn id(&self) -> (r: &Option<String>)
        ensures
            *r == self.spec_id(),
    {
        &self.id
    }
}

/// Accumulates the fields of a [`Subset`]; [`SubsetBuilder::build`] checks them.
#[derive(Debug, Default, Clone)]
pub struct SubsetBuilder {
    pub contains: Option<UIntVector>,
    pub id: Option<String>,
}

impl SubsetBuilder {
    /// Whether the fields meet the rules of a [`Subset`].
    pub open spec fn meets_rules(&self) -> bool {
        self.first_broken_rule() is None
    }

    pub fn contains(self, v: UIntVector) -> (r: Self)
        ensures
            r == (SubsetBuilder { contains: Some(v), ..self }),
    {
        SubsetBuilder { contains: Some(v), ..self }
    }

    pub fn id(self, v: &str) -> (r: Self)
        ensures
            (r.id matches Some(x) && x@ == v@),
            r == (SubsetBuilder { id: r.id, ..self }),
    {
        SubsetBuilder { id: Some(v.to_owned()), ..self }
    }

    /// Checks the rules and makes the [`Subset`].
    pub fn build(self) -> (r: Result<Subset, MpdError>)
        ensures
            r is Ok <==> self.meets_rules(),
            self.first_broken_rule() matches Some(e) ==> r == Err::<Subset, MpdError>(e),
            r matches Ok(e) ==> self.contains == Some(e.spec_contains()),
            r matches Ok(e) ==> e.spec_id() == self.id,
    {
        if let Err(e) = self.validate() {
            return Err(e);
        }
        let contains = match self.contains {
            Some(v) => v,
            None => return Err(MpdError::MissingRequiredField("contains")),
        };
        Ok(Subset {
            contains,
            id: self.id,
        })
    }
}

impl NeedValidater for SubsetBuilder {
    open spec fn first_broken_rule(&self) -> Option<MpdError> {
        if self.contains is None {
            Some(MpdError::MissingRequiredField("contains"))
        } else {
            None
        }
    }

    fn validate(&self) -> (r: Result<(), MpdError>) {
        if self.contains.is_none() {
            return Err(MpdError::MissingRequiredField("contains"));
        }
        Ok(())
    }
}

/// Preselection.
///
/// Built only through [`PreselectionBuilder`], which checks its rules.
#[derive(Debug, Clone, PartialEq, Eq)]
pub struct Preselection {
    id: Option<NoWhitespace>,
    preselection_components: StringVector,
    lang: Option<XsLanguage>,
    order: Option<PreselectionOrderType>,
    accessibility: Option<Vec<Descriptor>>,
    role: Option<Vec<Descriptor>>,
    rating: Option<Vec<Descriptor>>,
    viewpoint: Option<Vec<Descriptor>>,
    profiles: Option<ListOfProfiles>,
    width: Option<u32>,
    height: Option<u32>,
    sar: Option<Ratio>,
    framerate: Option<FrameRate>,
    audio_sampling_rate: Option<AudioSamplingRate>,
    mime_type: Option<String>,
    segment_profiles: Option<ListOfFourCC>,
    codecs: Option<Codecs>,
    container_profiles: Option<ListOfFourCC>,
    maximum_sap_period: Option<XsDouble>,
    start_with_sap: Option<StreamAccessPoint>,
    max_playout_rate: Option<XsDouble>,
    coding_dependency: Option<bool>,
    scan_type: Option<VideoScan>,
    selection_priority: Option<u32>,
    tag: Option<Tag>,
    frame_packing: Option<Vec<Descriptor>>,
    audio_channel_configuration: Option<Vec<Descriptor>>,
    content_protection: Option<Vec<ContentProtection>>,
    output_protection: Option<Vec<Descriptor>>,
    essential_property: Option<Vec<Descriptor>>,
    supplemental_property: Option<Vec<Descriptor>>,
    inband_event_stream: Option<Vec<EventStream>>,
    switching: Option<Vec<Switching>>,
    random_access: Option<Vec<RandomAccess>>,
    group_lavel: Option<Vec<Label>>,
    lavel: Option<Vec<Label>>,
    producer_reference_time: Option<Vec<ProducerReferenceTime>>,
    content_popularity_rate: Option<Vec<ContentPopularityRate>>,
    resync: Option<Vec<Resync>>,
}

impl Preselection {
    pub closed spec fn spec_id(&self) -> Option<NoWhitespace> {
        self.id
    }

    pub closed spec fn spec_preselection_components(&self) -> StringVector {
        self.preselection_components
    }

    pub closed spec fn spec_lang(&self) -> Option<XsLanguage> {
        self.lang
    }

    pub closed spec fn spec_order(&self) -> Option<PreselectionOrderType> {
        self.order
    }

    pub closed spec fn spec_accessibility(&self) -> Option<Vec<Descriptor>> {
        self.accessibility
    }

    pub closed spec fn spec_role(&self) -> Option<Vec<Descriptor>> {
        self.role
    }

    pub closed spec fn spec_rating(&self) -> Option<Vec<Descriptor>> {
        self.rating
    }

    pub closed spec fn spec_viewpoint(&self) -> Option<Vec<Descriptor>> {
        self.viewpoint
    }

    pub closed spec fn spec_profiles(&self) -> Option<ListOfProfiles> {
        self.profiles
    }

    pub closed spec fn spec_width(&self) -> Option<u32> {
        self.width
    }

    pub closed spec fn spec_height(&self) -> Option<u32> {
        self.height
    }

    pub closed spec fn spec_sar(&self) -> Option<Ratio> {
        self.sar
    }

    pub closed spec fn spec_framerate(&self) -> Option<FrameRate> {
        self.framerate
    }

    pub closed spec fn spec_audio_sampling_rate(&self) -> Option<AudioSamplingRate> {
        self.audio_sampling_rate
    }

    pub closed spec fn spec_mime_type(&self) -> Option<String> {
        self.mime_type
    }

    pub closed spec fn spec_segment_profiles(&self) -> Option<ListOfFourCC> {
        self.segment_profiles
    }

    pub closed spec fn spec_codecs(&self) -> Option<Codecs> {
        self.codecs
    }

    pub closed spec fn spec_container_profiles(&self) -> Option<ListOfFourCC> {
        self.container_profiles
    }

    pub closed spec fn spec_maximum_sap_period(&self) -> Option<XsDouble> {
        self.maximum_sap_period
    }

    pub closed spec fn spec_start_with_sap(&self) -> Option<StreamAccessPoint> {
        self.start_with_sap
    }

    pub closed spec fn spec_max_playout_rate(&self) -> Option<XsDouble> {
        self.max_playout_rate
    }

    pub closed spec fn spec_coding_dependency(&self) -> Option<bool> {
        self.coding_dependency
    }

    pub closed spec fn spec_scan_type(&self) -> Option<VideoScan> {
        self.scan_type
    }

    pub closed spec fn spec_selection_priority(&self) -> Option<u32> {
        self.selection_priority
    }

    pub closed spec fn spec_tag(&self) -> Option<Tag> {
        self.tag
    }

    pub closed spec fn spec_frame_packing(&self) -> Option<Vec<Descriptor>> {
        self.frame_packing
    }

    pub closed spec fn spec_audio_channel_configuration(&self) -> Option<Vec<Descriptor>> {
        self.audio_channel_configuration
    }

    pub closed spec fn spec_content_protection(&self) -> Option<Vec<ContentProtection>> {
        self.content_protection
    }

    pub closed spec fn spec_output_protection(&self) -> Option<Vec<Descriptor>> {
        self.output_protection
    }

    pub closed spec fn spec_essential_property(&self) -> Option<Vec<Descriptor>> {
        self.essential_property
    }

    pub closed spec fn spec_supplemental_property(&self) -> Option<Vec<Descriptor>> {
        self.supplemental_property
    }

    pub closed spec fn spec_inband_event_stream(&self) -> Option<Vec<EventStream>> {
        self.inband_event_stream
    }

    pub closed spec fn spec_switching(&self) -> Option<Vec<Switching>> {
        self.switching
    }

    pub closed spec fn spec_random_access(&self) -> Option<Vec<RandomAccess>> {
        self.random_access
    }

    pub closed spec fn spec_group_lavel(&self) -> Option<Vec<Label>> {
        self.group_lavel
    }

    pub closed spec fn spec_lavel(&self) -> Option<Vec<Label>> {
        self.lavel
    }

    pub closed spec fn spec_producer_reference_time(&self) -> Option<Vec<ProducerReferenceTime>> {
        self.producer_reference_time
    }

    pub closed spec fn spec_content_popularity_rate(&self) -> Option<Vec<ContentPopularityRate>> {
        self.content_popularity_rate
    }

    pub closed spec fn spec_resync(&self) -> Option<Vec<Resync>> {
        self.resync
    }

    pub fn id(&self) -> (r: &Option<NoWhitespace>)
        ensures
            *r == self.spec_id(),
    {
        &self.id
    }

    pub fn preselection_components(&self) -> (r: &StringVector)
        ensures
            *r == self.spec_preselection_components(),
    {
        &self.preselection_components
    }

    pub fn lang(&self) -> (r: &Option<XsLanguage>)
        ensures
            *r == self.spec_lang(),
    {
        &self.lang
    }

    pub fn order(&self) -> (r: &Option<PreselectionOrderType>)
        ensures
            *r == self.spec_order(),
    {
        &self.order
    }

    pub fn accessibility(&self) -> (r: &Option<Vec<Descriptor>>)
        ensures
            *r == self.spec_accessibility(),
    {
        &self.accessibility
    }

    pub fn role(&self) -> (r: &Option<Vec<Descriptor>>)
        ensures
            *r == self.spec_role(),
    {
        &self.role
    }

    pub fn rating(&self) -> (r: &Option<Vec<Descriptor>>)
        ensures
            *r == self.spec_rating(),
    {
        &self.rating
    }

    pub fn viewpoint(&self) -> (r: &Option<Vec<Descriptor>>)
        ensures
            *r == self.spec_viewpoint(),
    {
        &self.viewpoint
    }

    pub fn profiles(&self) -> (r: &Option<ListOfProfiles>)
        ensures
            *r == self.spec_profiles(),
    {
        &self.profiles
    }

    pub fn width(&self) -> (r: &Option<u32>)
        ensures
            *r == self.spec_width(),
    {
        &self.width
    }

    pub fn height(&self) -> (r: &Option<u32>)
        ensures
            *r == self.spec_height(),
    {
        &self.height
    }

    pub fn sar(&self) -> (r: &Option<Ratio>)
        ensures
            *r == self.spec_sar(),
    {
        &self.sar
    }

    pub fn framerate(&self) -> (r: &Option<FrameRate>)
        ensures
            *r == self.spec_framerate(),
    {
        &self.framerate
    }

    pub fn audio_sampling_rate(&self) -> (r: &Option<AudioSamplingRate>)
        ensures
            *r == self.spec_audio_sampling_rate(),
    {
        &self.audio_sampling_rate
    }

    pub fn mime_type(&self) -> (r: &Option<String>)
        ensures
            *r == self.spec_mime_type(),
    {
        &self.mime_type
    }

    pub fn segment_profiles(&self) -> (r: &Option<ListOfFourCC>)
        ensures
            *r == self.spec_segment_profiles(),
    {
        &self.segment_profiles
    }

    pub fn codecs(&self) -> (r: &Option<Codecs>)
        ensures
            *r == self.spec_codecs(),
    {
        &self.codecs
    }

    pub fn container_profiles(&self) -> (r: &Option<ListOfFourCC>)
        ensures
            *r == self.spec_container_profiles(),
    {
        &self.container_profiles
    }

    pub fn maximum_sap_period(&self) -> (r: &Option<XsDouble>)
        ensures
            *r == self.spec_maximum_sap_period(),
    {
        &self.maximum_sap_period
    }

    pub fn start_with_sap(&self) -> (r: &Option<StreamAccessPoint>)
        ensures
            *r == self.spec_start_with_sap(),
    {
        &self.start_with_sap
    }

    pub fn max_playout_rate(&self) -> (r: &Option<XsDouble>)
        ensures
            *r == self.spec_max_playout_rate(),
    {
        &self.max_playout_rate
    }

    pub fn coding_dependency(&self) -> (r: &Option<bool>)
        ensures
            *r == self.spec_coding_dependency(),
    {
        &self.coding_dependency
    }

    pub fn scan_type(&self) -> (r: &Option<VideoScan>)
        ensures
            *r == self.spec_scan_type(),
    {
        &self.scan_type
    }

    pub fn selection_priority(&self) -> (r: &Option<u32>)
        ensures
            *r == self.spec_selection_priority(),
    {
        &self.selection_priority
    }

    pub fn tag(&self) -> (r: &Option<Tag>)
        ensures
            *r == self.spec_tag(),
    {
        &self.tag
    }

    pub fn frame_packing(&self) -> (r: &Option<Vec<Descriptor>>)
        ensures
            *r == self.spec_frame_packing(),
    {
        &self.frame_packing
    }

    pub fn audio_channel_configuration(&self) -> (r: &Option<Vec<Descriptor>>)
        ensures
            *r == self.spec_audio_channel_configuration(),
    {
        &self.audio_channel_configuration
    }

    pub fn content_protection(&self) -> (r: &Option<Vec<ContentProtection>>)
        ensures
            *r == self.spec_content_protection(),
    {
        &self.content_protection
    }

    pub fn output_protection(&self) -> (r: &Option<Vec<Descriptor>>)
        ensures
            *r == self.spec_output_protection(),
    {
        &self.output_protection
    }

    pub fn essential_property(&self) -> (r: &Option<Vec<Descriptor>>)
        ensures
            *r == self.spec_essential_property(),
    {
        &self.essential_property
    }

    pub fn supplemental_property(&self) -> (r: &Option<Vec<Descriptor>>)
        ensures
            *r == self.spec_supplemental_property(),
    {
        &self.supplemental_property
    }

    pub fn inband_event_stream(&self) -> (r: &Option<Vec<EventStream>>)
        ensures
            *r == self.spec_inband_event_stream(),
    {
        &self.inband_event_stream
    }

    pub fn switching(&self) -> (r: &Option<Vec<Switching>>)
        ensures
            *r == self.spec_switching(),
    {
        &self.switching
    }

    pub fn random_access(&self) -> (r: &Option<Vec<RandomAccess>>)
        ensures
            *r == self.spec_random_access(),
    {
        &self.random_access
    }

    pub fn group_lavel(&self) -> (r: &Option<Vec<Label>>)
        ensures
            *r == self.spec_group_lavel(),
    {
        &self.group_lavel
    }

    pub fn lavel(&self) -> (r: &Option<Vec<Label>>)
        ensures
            *r == self.spec_lavel(),
    {
        &self.lavel
    }

    pub fn producer_reference_time(&self) -> (r: &Option<Vec<ProducerReferenceTime>>)
        ensures
            *r == self.spec_producer_reference_time(),
    {
        &self.producer_reference_time
    }

    pub fn content_popularity_rate(&self) -> (r: &Option<Vec<ContentPopularityRate>>)
        ensures
            *r == self.spec_content_popularity_rate(),
    {
        &self.content_popularity_rate
    }

    pub fn resync(&self) -> (r: &Option<Vec<Resync>>)
        ensures
            *r == self.spec_resync(),
    {
        &self.resync
    }
}

/// Accumulates the fields of a [`Preselection`]; [`PreselectionBuilder::build`] checks them.
#[derive(Debug, Default, Clone)]
pub struct PreselectionBuilder {
    pub id: Option<NoWhitespace>,
    pub preselection_components: Option<StringVector>,
    pub lang: Option<XsLanguage>,
    pub order: Option<PreselectionOrderType>,
    pub accessibility: Option<Vec<Descriptor>>,
    pub role: Option<Vec<Descriptor>>,
    pub rating: Option<Vec<Descriptor>>,
    pub viewpoint: Option<Vec<Descriptor>>,
    pub profiles: Option<ListOfProfiles>,
    pub width: Option<u32>,
    pub height: Option<u32>,
    pub sar: Option<Ratio>,
    pub framerate: Option<FrameRate>,
    pub audio_sampling_rate: Option<AudioSamplingRate>,
    pub mime_type: Option<String>,
    pub segment_profiles: Option<ListOfFourCC>,
    pub codecs: Option<Codecs>,
    pub container_profiles: Option<ListOfFourCC>,
    pub maximum_sap_period: Option<XsDouble>,
    pub start_with_sap: Option<StreamAccessPoint>,
    pub max_playout_rate: Option<XsDouble>,
    pub coding_dependency: Option<bool>,
    pub scan_type: Option<VideoScan>,
    pub selection_priority: Option<u32>,
    pub tag: Option<Tag>,
    pub frame_packing: Option<Vec<Descriptor>>,
    pub audio_channel_configuration: Option<Vec<Descriptor>>,
    pub content_protection: Option<Vec<ContentProtection>>,
    pub output_protection: Option<Vec<Descriptor>>,
    pub essential_property: Option<Vec<Descriptor>>,
    pub supplemental_property: Option<Vec<Descriptor>>,
    pub inband_event_stream: Option<Vec<EventStream>>,
    pub switching: Option<Vec<Switching>>,
    pub random_access: Option<Vec<RandomAccess>>,
    pub group_lavel: Option<Vec<Label>>,
    pub lavel: Option<Vec<Label>>,
    pub producer_reference_time: Option<Vec<ProducerReferenceTime>>,
    pub content_popularity_rate: Option<Vec<ContentPopularityRate>>,
    pub resync: Option<Vec<Resync>>,
}

impl PreselectionBuilder {
    /// Whether the fields meet the rules of a [`Preselection`].
    pub open spec fn meets_rules(&self) -> bool {
        self.first_broken_rule() is None
    }

    pub fn id(self, v: NoWhitespace) -> (r: Self)
        ensures
            r == (PreselectionBuilder { id: Some(v), ..self }),
    {
        PreselectionBuilder { id: Some(v), ..self }
    }

    pub fn preselection_components(self, v: StringVector) -> (r: Self)
        ensures
            r == (PreselectionBuilder { preselection_components: Some(v), ..self }),
    {
        PreselectionBuilder { preselection_components: Some(v), ..self }
    }

    pub fn lang(self, v: XsLanguage) -> (r: Self)
        ensures
            r == (PreselectionBuilder { lang: Some(v), ..self }),
    {
        PreselectionBuilder { lang: Some(v), ..self }
    }

    pub fn order(self, v: PreselectionOrderType) -> (r: Self)
        ensures
            r == (PreselectionBuilder { order: Some(v), ..self }),
    {
        PreselectionBuilder { order: Some(v), ..self }
    }

    pub fn accessibility(self, v: Vec<Descriptor>) -> (r: Self)
        ensures
            r == (PreselectionBuilder { accessibility: Some(v), ..self }),
    {
        PreselectionBuilder { accessibility: Some(v), ..self }
    }

    pub fn role(self, v: Vec<Descriptor>) -> (r: Self)
        ensures
            r == (PreselectionBuilder { role: Some(v), ..self }),
    {
        PreselectionBuilder { role: Some(v), ..self }
    }

    pub fn rating(self, v: Vec<Descriptor>) -> (r: Self)
        ensures
            r == (PreselectionBuilder { rating: Some(v), ..self }),
    {
        PreselectionBuilder { rating: Some(v), ..self }
    }

    pub fn viewpoint(self, v: Vec<Descriptor>) -> (r: Self)
        ensures
            r == (PreselectionBuilder { viewpoint: Some(v), ..self }),
    {
        PreselectionBuilder { viewpoint: Some(v), ..self }
    }

    pub fn profiles(self, v: Vec<Profile>) -> (r: Self)
        ensures
            (r.profiles matches Some(x) && x.view() == v@.map_values(|p: Profile| p.view())),
            r == (PreselectionBuilder { profiles: r.profiles, ..self }),
    {
        PreselectionBuilder { profiles: Some(ListOfProfiles::from(v)), ..self }
    }

    pub fn width(self, v: u32) -> (r: Self)
        ensures
            r == (PreselectionBuilder { width: Some(v), ..self }),
    {
        PreselectionBuilder { width: Some(v), ..self }
    }

    pub fn height(self, v: u32) -> (r: Self)
        ensures
            r == (PreselectionBuilder { height: Some(v), ..self }),
    {
        PreselectionBuilder { height: Some(v), ..self }
    }

    pub fn sar(self, v: Ratio) -> (r: Self)
        ensures
            r == (PreselectionBuilder { sar: Some(v), ..self }),
    {
        PreselectionBuilder { sar: Some(v), ..self }
    }

    pub fn framerate(self, v: FrameRate) -> (r: Self)
        ensures
            r == (PreselectionBuilder { framerate: Some(v), ..self }),
    {
        PreselectionBuilder { framerate: Some(v), ..self }
    }

    pub fn audio_sampling_rate(self, v: AudioSamplingRate) -> (r: Self)
        ensures
            r == (PreselectionBuilder { audio_sampling_rate: Some(v), ..self }),
    {
        PreselectionBuilder { audio_sampling_rate: Some(v), ..self }
    }

    pub fn mime_type(self, v: &str) -> (r: Self)
        ensures
            (r.mime_type matches Some(x) && x@ == v@),
            r == (PreselectionBuilder { mime_type: r.mime_type, ..self }),
    {
        PreselectionBuilder { mime_type: Some(v.to_owned()), ..self }
    }

    pub fn segment_profiles(self, v: ListOfFourCC) -> (r: Self)
        ensures
            r == (PreselectionBuilder { segment_profiles: Some(v), ..self }),
    {
        PreselectionBuilder { segment_profiles: Some(v), ..self }
    }

    pub fn codecs(self, v: Codecs) -> (r: Self)
        ensures
            r == (PreselectionBuilder { codecs: Some(v), ..self }),
    {
        PreselectionBuilder { codecs: Some(v), ..self }
    }

    pub fn container_profiles(self, v: ListOfFourCC) -> (r: Self)
        ensures
            r == (PreselectionBuilder { container_profiles: Some(v), ..self }),
    {
        PreselectionBuilder { container_profiles: Some(v), ..self }
    }

    pub fn maximum_sap_period(self, v: XsDouble) -> (r: Self)
        ensures
            r == (PreselectionBuilder { maximum_sap_period: Some(v), ..self }),
    {
        PreselectionBuilder { maximum_sap_period: Some(v), ..self }
    }

    pub fn start_with_sap(self, v: StreamAccessPoint) -> (r: Self)
        ensures
            r == (PreselectionBuilder { start_with_sap: Some(v), ..self }),
    {
        PreselectionBuilder { start_with_sap: Some(v), ..self }
    }

    pub fn max_playout_rate(self, v: XsDouble) -> (r: Self)
        ensures
            r == (PreselectionBuilder { max_playout_rate: Some(v), ..self }),
    {
        PreselectionBuilder { max_playout_rate: Some(v), ..self }
    }

    pub fn coding_dependency(self, v: bool) -> (r: Self)
        ensures
            r == (PreselectionBuilder { coding_dependency: Some(v), ..self }),
    {
        PreselectionBuilder { coding_dependency: Some(v), ..self }
    }

    pub fn scan_type(self, v: VideoScan) -> (r: Self)
        ensures
            r == (PreselectionBuilder { scan_type: Some(v), ..self }),
    {
        PreselectionBuilder { scan_type: Some(v), ..self }
    }

    pub fn selection_priority(self, v: u32) -> (r: Self)
        ensures
            r == (PreselectionBuilder { selection_priority: Some(v), ..self }),
    {
        PreselectionBuilder { selection_priority: Some(v), ..self }
    }

    pub fn tag(self, v: &str) -> (r: Self)
        ensures
            (r.tag matches Some(x) && x.view() == v@),
            r == (PreselectionBuilder { tag: r.tag, ..self }),
    {
        PreselectionBuilder { tag: Some(Tag::from(v)), ..self }
    }

    pub fn frame_packing(self, v: Vec<Descriptor>) -> (r: Self)
        ensures
            r == (PreselectionBuilder { frame_packing: Some(v), ..self }),
    {
        PreselectionBuilder { frame_packing: Some(v), ..self }
    }

    pub fn audio_channel_configuration(self, v: Vec<Descriptor>) -> (r: Self)
        ensures
            r == (PreselectionBuilder { audio_channel_configuration: Some(v), ..self }),
    {
        PreselectionBuilder { audio_channel_configuration: Some(v), ..self }
    }

    pub fn content_protection(self, v: Vec<ContentProtection>) -> (r: Self)
        ensures
            r == (PreselectionBuilder { content_protection: Some(v), ..self }),
    {
        PreselectionBuilder { content_protection: Some(v), ..self }
    }

    pub fn output_protection(self, v: Vec<Descriptor>) -> (r: Self)
        ensures
            r == (PreselectionBuilder { output_protection: Some(v), ..self }),
    {
        PreselectionBuilder { output_protection: Some(v), ..self }
    }

    pub fn essential_property(self, v: Vec<Descriptor>) -> (r: Self)
        ensures
            r == (PreselectionBuilder { essential_property: Some(v), ..self }),
    {
        PreselectionBuilder { essential_property: Some(v), ..self }
    }

    pub fn supplemental_property(self, v: Vec<Descriptor>) -> (r: Self)
        ensures
            r == (PreselectionBuilder { supplemental_property: Some(v), ..self }),
    {
        PreselectionBuilder { supplemental_property: Some(v), ..self }
    }

    pub fn inband_event_stream(self, v: Vec<EventStream>) -> (r: Self)
        ensures
            r == (PreselectionBuilder { inband_event_stream: Some(v), ..self }),
    {
        PreselectionBuilder { inband_event_stream: Some(v), ..self }
    }

    pub fn switching(self, v: Vec<Switching>) -> (r: Self)
        ensures
            r == (PreselectionBuilder { switching: Some(v), ..self }),
    {
        PreselectionBuilder { switching: Some(v), ..self }
    }

    pub fn random_access(self, v: Vec<RandomAccess>) -> (r: Self)
        ensures
            r == (PreselectionBuilder { random_access: Some(v), ..self }),
    {
        PreselectionBuilder { random_access: Some(v), ..self }
    }

    pub fn group_lavel(self, v: Vec<Label>) -> (r: Self)
        ensures
            r == (PreselectionBuilder { group_lavel: Some(v), ..self }),
    {
        PreselectionBuilder { group_lavel: Some(v), ..self }
    }

    pub fn lavel(self, v: Vec<Label>) -> (r: Self)
        ensures
            r == (PreselectionBuilder { lavel: Some(v), ..self }),
    {
        PreselectionBuilder { lavel: Some(v), ..self }
    }

    pub fn producer_reference_time(self, v: Vec<ProducerReferenceTime>) -> (r: Self)
        ensures
            r == (PreselectionBuilder { producer_reference_time: Some(v), ..self }),
    {
        PreselectionBuilder { producer_reference_time: Some(v), ..self }
    }

    pub fn content_popularity_rate(self, v: Vec<ContentPopularityRate>) -> (r: Self)
        ensures
            r == (PreselectionBuilder { content_popularity_rate: Some(v), ..self }),
    {
        PreselectionBuilder { content_popularity_rate: Some(v), ..self }
    }

    pub fn resync(self, v: Vec<Resync>) -> (r: Self)
        ensures
            r == (PreselectionBuilder { resync: Some(v), ..self }),
    {
        PreselectionBuilder { resync: Some(v), ..self }
    }

    /// Checks the rules and makes the [`Preselection`].
    pub fn build(self) -> (r: Result<Preselection, MpdError>)
        ensures
            r is Ok <==> self.meets_rules(),
            self.first_broken_rule() matches Some(e) ==> r == Err::<Preselection, MpdError>(e),
            r matches Ok(e) ==> e.spec_id() == self.id,
            r matches Ok(e) ==>
                self.preselection_components == Some(e.spec_preselection_components()),
            r matches Ok(e) ==> e.spec_lang() == self.lang,
            r matches Ok(e) ==> e.spec_order() == self.order,
            r matches Ok(e) ==> e.spec_accessibility() == self.accessibility,
            r matches Ok(e) ==> e.spec_role() == self.role,
            r matches Ok(e) ==> e.spec_rating() == self.rating,
            r matches Ok(e) ==> e.spec_viewpoint() == self.viewpoint,
            r matches Ok(e) ==> e.spec_profiles() == self.profiles,
            r matches Ok(e) ==> e.spec_width() == self.width,
            r matches Ok(e) ==> e.spec_height() == self.height,
            r matches Ok(e) ==> e.spec_sar() == self.sar,
            r matches Ok(e) ==> e.spec_framerate() == self.framerate,
            r matches Ok(e) ==> e.spec_audio_sampling_rate() == self.audio_sampling_rate,
            r matches Ok(e) ==> e.spec_mime_type() == self.mime_type,
            r matches Ok(e) ==> e.spec_segment_profiles() == self.segment_profiles,
            r matches Ok(e) ==> e.spec_codecs() == self.codecs,
            r matches Ok(e) ==> e.spec_container_profiles() == self.container_profiles,
            r matches Ok(e) ==> e.spec_maximum_sap_period() == self.maximum_sap_period,
            r matches Ok(e) ==> e.spec_start_with_sap() == self.start_with_sap,
            r matches Ok(e) ==> e.spec_max_playout_rate() == self.max_playout_rate,
            r matches Ok(e) ==> e.spec_coding_dependency() == self.coding_dependency,
            r matches Ok(e) ==> e.spec_scan_type() == self.scan_type,
            r matches Ok(e) ==> e.spec_selection_priority() == self.selection_priority,
            r matches Ok(e) ==> e.spec_tag() == self.tag,
            r matches Ok(e) ==> e.spec_frame_packing() == self.frame_packing,
            r matches Ok(e) ==>
                e.spec_audio_channel_configuration() == self.audio_channel_configuration,
            r matches Ok(e) ==> e.spec_content_protection() == self.content_protection,
            r matches Ok(e) ==> e.spec_output_protection() == self.output_protection,
            r matches Ok(e) ==> e.spec_essential_property() == self.essential_property,
            r matches Ok(e) ==> e.spec_supplemental_property() == self.supplemental_property,
            r matches Ok(e) ==> e.spec_inband_event_stream() == self.inband_event_stream,
            r matches Ok(e) ==> e.spec_switching() == self.switching,
            r matches Ok(e) ==> e.spec_random_access() == self.random_access,
            r matches Ok(e) ==> e.spec_group_lavel() == self.group_lavel,
            r matches Ok(e) ==> e.spec_lavel() == self.lavel,
            r matches Ok(e) ==> e.spec_producer_reference_time() == self.producer_reference_time,
            r matches Ok(e) ==> e.spec_content_popularity_rate() == self.content_popularity_rate,
            r matches Ok(e) ==> e.spec_resync() == self.resync,
    {
        if let Err(e) = self.validate() {
            return Err(e);
        }
        let preselection_components = match self.preselection_components {
            Some(v) => v,
            None => return Err(MpdError::MissingRequiredField("preselection_components")),
        };
        Ok(Preselection {
            id: self.id,
            preselection_components,
            lang: self.lang,
            order: self.order,
            accessibility: self.accessibility,
            role: self.role,
            rating: self.rating,
            viewpoint: self.viewpoint,
            profiles: self.profiles,
            width: self.width,
            height: self.height,
            sar: self.sar,
            framerate: self.framerate,
            audio_sampling_rate: self.audio_sampling_rate,
            mime_type: self.mime_type,
            segment_profiles: self.segment_profiles,
            codecs: self.codecs,
            container_profiles: self.container_profiles,
            maximum_sap_period: self.maximum_sap_period,
            start_with_sap: self.start_with_sap,
            max_playout_rate: self.max_playout_rate,
            coding_dependency: self.coding_dependency,
            scan_type: self.scan_type,
            selection_priority: self.selection_priority,
            tag: self.tag,
            frame_packing: self.frame_packing,
            audio_channel_configuration: self.audio_channel_configuration,
            content_protection: self.content_protection,
            output_protection: self.output_protection,
            essential_property: self.essential_property,
            supplemental_property: self.supplemental_property,
            inband_event_stream: self.inband_event_stream,
            switching: self.switching,
            random_access: self.random_access,
            group_lavel: self.group_lavel,
            lavel: self.lavel,
            producer_reference_time: self.producer_reference_time,
            content_popularity_rate: self.content_popularity_rate,
            resync: self.resync,
        })
    }
}

impl NeedValidater for PreselectionBuilder {
    open spec fn first_broken_rule(&self) -> Option<MpdError> {
        if self.preselection_components is None {
            Some(MpdError::MissingRequiredField("preselection_components"))
        } else {
            None
        }
    }

    fn validate(&self) -> (r: Result<(), MpdError>) {
        if self.preselection_components.is_none() {
            return Err(MpdError::MissingRequiredField("preselection_components"));
        }
        Ok(())
    }
}

/// URL with an optional byte range.
#[derive(Debug, Clone, PartialEq, Eq, Default)]
pub struct Url {
    source_url: Option<XsAnyURI>,
    range: Option<SingleByteRange>,
}

impl Url {
    pub closed spec fn spec_source_url(&self) -> Option<XsAnyURI> {
        self.source_url
    }

    pub closed spec fn spec_range(&self) -> Option<SingleByteRange> {
        self.range
    }

    pub fn source_url(&self) -> (r: &Option<XsAnyURI>)
        ensures
            *r == self.spec_source_url(),
    {
        &self.source_url
    }

    pub fn range(&self) -> (r: &Option<SingleByteRange>)
        ensures
            *r == self.spec_range(),
    {
        &self.range
    }
}

/// Accumulates the fields of a [`Url`]; [`UrlBuilder::build`] checks them.
#[derive(Debug, Default, Clone)]
pub struct UrlBuilder {
    pub source_url: Option<XsAnyURI>,
    pub range: Option<SingleByteRange>,
}

impl UrlBuilder {
    pub fn source_url(self, v: &str) -> (r: Self)
        ensures
            (r.source_url matches Some(x) && x.view() == v@),
            r == (UrlBuilder { source_url: r.source_url, ..self }),
    {
        UrlBuilder { source_url: Some(XsAnyURI::from(v)), ..self }
    }

    pub fn range(self, v: SingleByteRange) -> (r: Self)
        ensures
            r == (UrlBuilder { range: Some(v), ..self }),
    {
        UrlBuilder { range: Some(v), ..self }
    }

    /// Checks the rules and makes the [`Url`].
    pub fn build(self) -> (r: Result<Url, MpdError>)
        ensures
            r is Ok,
            r matches Ok(e) ==> e.spec_source_url() == self.source_url,
            r matches Ok(e) ==> e.spec_range() == self.range,
    {
        Ok(Url {
            source_url: self.source_url,
            range: self.range,
        })
    }
}

/// Failover content span.
///
/// Built only through [`FcsBuilder`], which checks its rules.
#[derive(Debug, Clone, PartialEq, Eq)]
pub struct Fcs {
    start_time: u64,
    duration: Option<u64>,
}

impl Fcs {
    pub closed spec fn spec_start_time(&self) -> u64 {
        self.start_time
    }

    pub closed spec fn spec_duration(&self) -> Option<u64> {
        self.duration
    }

    pub fn start_time(&self) -> (r: &u64)
        ensures
            *r == self.spec_start_time(),
    {
        &self.start_time
    }

    pub fn duration(&self) -> (r: &Option<u64>)
        ensures
            *r == self.spec_duration(),
    {
        &self.duration
    }
}

/// Accumulates the fields of a [`Fcs`]; [`FcsBuilder::build`] checks them.
#[derive(Debug, Default, Clone)]
pub struct FcsBuilder {
    pub start_time: Option<u64>,
    pub duration: Option<u64>,
}

impl FcsBuilder {
    /// Whether the fields meet the rules of a [`Fcs`].
    pub open spec fn meets_rules(&self) -> bool {
        self.first_broken_rule() is None
    }

    pub fn start_time(self, v: u64) -> (r: Self)
        ensures
            r == (FcsBuilder { start_time: Some(v), ..self }),
    {
        FcsBuilder { start_time: Some(v), ..self }
    }

    pub fn duration(self, v: u64) -> (r: Self)
        ensures
            r == (FcsBuilder { duration: Some(v), ..self }),
    {
        FcsBuilder { duration: Some(v), ..self }
    }

    /// Checks the rules and makes the [`Fcs`].
    pub fn build(self) -> (r: Result<Fcs, MpdError>)
        ensures
            r is Ok <==> self.meets_rules(),
            self.first_broken_rule() matches Some(e) ==> r == Err::<Fcs, MpdError>(e),
            r matches Ok(e) ==> self.start_time == Some(e.spec_start_time()),
            r matches Ok(e) ==> e.spec_duration() == self.duration,
    {
        if let Err(e) = self.validate() {
            return Err(e);
        }
        let start_time = match self.start_time {
            Some(v) => v,
            None => return Err(MpdError::MissingRequiredField("start_time")),
        };
        Ok(Fcs {
            start_time,
            duration: self.duration,
        })
    }
}

impl NeedValidater for FcsBuilder {
    open spec fn first_broken_rule(&self) -> Option<MpdError> {
        if self.start_time is None {
            Some(MpdError::MissingRequiredField("start_time"))
        } else {
            None
        }
    }

    fn validate(&self) -> (r: Result<(), MpdError>) {
        if self.start_time.is_none() {
            return Err(MpdError::MissingRequiredField("start_time"));
        }
        Ok(())
    }
}

/// Failover content.
///
/// Built only through [`FailoverContentBuilder`], which checks its rules.
#[derive(Debug, Clone, PartialEq, Eq)]
pub struct FailoverContent {
    valid: Option<bool>,
    fcs_list: Vec<Fcs>,
}

impl FailoverContent {
    pub closed spec fn spec_valid(&self) -> Option<bool> {
        self.valid
    }

    pub closed spec fn spec_fcs_list(&self) -> Vec<Fcs> {
        self.fcs_list
    }

    pub fn valid(&self) -> (r: &Option<bool>)
        ensures
            *r == self.spec_valid(),
    {
        &self.valid
    }

    pub fn fcs_list(&self) -> (r: &Vec<Fcs>)
        ensures
            *r == self.spec_fcs_list(),
    {
        &self.fcs_list
    }
}

/// Accumulates the fields of a [`FailoverContent`]; [`FailoverContentBuilder::build`] checks them.
#[derive(Debug, Default, Clone)]
pub struct FailoverContentBuilder {
    pub valid: Option<bool>,
    pub fcs_list: Option<Vec<Fcs>>,
}

impl FailoverContentBuilder {
    /// Whether the fields meet the rules of a [`FailoverContent`].
    pub open spec fn meets_rules(&self) -> bool {
        self.first_broken_rule() is None
    }

    pub fn valid(self, v: bool) -> (r: Self)
        ensures
            r == (FailoverContentBuilder { valid: Some(v), ..self }),
    {
        FailoverContentBuilder { valid: Some(v), ..self }
    }

    pub fn fcs_list(self, v: Vec<Fcs>) -> (r: Self)
        ensures
            r == (FailoverContentBuilder { fcs_list: Some(v), ..self }),
    {
        FailoverContentBuilder { fcs_list: Some(v), ..self }
    }

    /// Checks the rules and makes the [`FailoverContent`].
    pub fn build(self) -> (r: Result<FailoverContent, MpdError>)
        ensures
            r is Ok <==> self.meets_rules(),
            self.first_broken_rule() matches Some(e) ==> r == Err::<FailoverContent, MpdError>(e),
            r matches Ok(e) ==> e.spec_valid() == self.valid,
            r matches Ok(e) ==> self.fcs_list == Some(e.spec_fcs_list()),
    {
        if let Err(e) = self.validate() {
            return Err(e);
        }
        let fcs_list = match self.fcs_list {
            Some(v) => v,
            None => return Err(MpdError::MissingRequiredField("fcs_list")),
        };
        Ok(FailoverContent {
            valid: self.valid,
            fcs_list,
        })
    }
}

impl NeedValidater for FailoverContentBuilder {
    open spec fn first_broken_rule(&self) -> Option<MpdError> {
        if !(self.fcs_list matches Some(v) && v@.len() > 0) {
            Some(MpdError::EmptyRequiredCollection("fcs_list"))
        } else {
            None
        }
    }

    fn validate(&self) -> (r: Result<(), MpdError>) {
        if match &self.fcs_list { Some(v) => v.len() == 0, None => true } {
            return Err(MpdError::EmptyRequiredCollection("fcs_list"));
        }
        Ok(())
    }
}

/// Segment URL.
#[derive(Debug, Clone, PartialEq, Eq, Default)]
pub struct SegmentUrl {
    media: Option<XsAnyURI>,
    media_range: Option<SingleByteRange>,
    index: Option<XsAnyURI>,
    index_range: Option<SingleByteRange>,
}

impl SegmentUrl {
    pub closed spec fn spec_media(&self) -> Option<XsAnyURI> {
        self.media
    }

    pub closed spec fn spec_media_range(&self) -> Option<SingleByteRange> {
        self.media_range
    }

    pub closed spec fn spec_index(&self) -> Option<XsAnyURI> {
        self.index
    }

    pub closed spec fn spec_index_range(&self) -> Option<SingleByteRange> {
        self.index_range
    }

    pub fn media(&self) -> (r: &Option<XsAnyURI>)
        ensures
            *r == self.spec_media(),
    {
        &self.media
    }

    pub fn media_range(&self) -> (r: &Option<SingleByteRange>)
        ensures
            *r == self.spec_media_range(),
    {
        &self.media_range
    }

    pub fn index(&self) -> (r: &Option<XsAnyURI>)
        ensures
            *r == self.spec_index(),
    {
        &self.index
    }

    pub fn index_range(&self) -> (r: &Option<SingleByteRange>)
        ensures
            *r == self.spec_index_range(),
    {
        &self.index_range
    }
}

/// Accumulates the fields of a [`SegmentUrl`]; [`SegmentUrlBuilder::build`] checks them.
#[derive(Debug, Default, Clone)]
pub struct SegmentUrlBuilder {
    pub media: Option<XsAnyURI>,
    pub media_range: Option<SingleByteRange>,
    pub index: Option<XsAnyURI>,
    pub index_range: Option<SingleByteRange>,
}

impl SegmentUrlBuilder {
    pub fn media(self, v: &str) -> (r: Self)
        ensures
            (r.media matches Some(x) && x.view() == v@),
            r == (SegmentUrlBuilder { media: r.media, ..self }),
    {
        SegmentUrlBuilder { media: Some(XsAnyURI::from(v)), ..self }
    }

    pub fn media_range(self, v: SingleByteRange) -> (r: Self)
        ensures
            r == (SegmentUrlBuilder { media_range: Some(v), ..self }),
    {
        SegmentUrlBuilder { media_range: Some(v), ..self }
    }

    pub fn index(self, v: &str) -> (r: Self)
        ensures
            (r.index matches Some(x) && x.view() == v@),
            r == (SegmentUrlBuilder { index: r.index, ..self }),
    {
        SegmentUrlBuilder { index: Some(XsAnyURI::from(v)), ..self }
    }

    pub fn index_range(self, v: SingleByteRange) -> (r: Self)
        ensures
            r == (SegmentUrlBuilder { index_range: Some(v), ..self }),
    {
        SegmentUrlBuilder { index_range: Some(v), ..self }
    }

    /// Checks the rules and makes the [`SegmentUrl`].
    pub fn build(self) -> (r: Result<SegmentUrl, MpdError>)
        ensures
            r is Ok,
            r matches Ok(e) ==> e.spec_media() == self.media,
            r matches Ok(e) ==> e.spec_media_range() == self.media_range,
            r matches Ok(e) ==> e.spec_index() == self.index,
            r matches Ok(e) ==> e.spec_index_range() == self.index_range,
    {
        Ok(SegmentUrl {
            media: self.media,
            media_range: self.media_range,
            index: self.index,
            index_range: self.index_range,
        })
    }
}

} // verus!
