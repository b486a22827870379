use vstd::prelude::*;

use crate::datetime::XsDateTime;
use crate::definition::{
    ListOfProfiles, MPD_NAMESPACE, MPD_SCHEMA_FILE, MPD_SCHEMA_INSTANCE, Profile,
};
use crate::duration::XsDuration;
use crate::element::{
    BaseURL, ContentProtection, Descriptor, InitializationSet, LeapSecondInformation, Metrics,
    NeedValidater, PatchLocation, ProgramInformation, ServiceDescription, UIntVWithID,
};
use crate::element::period::Period;
use crate::enums::PresentationType;
use crate::error::MpdError;
use crate::lists::{StringVector, WhitespaceSeparatedList};
use crate::types::XsAnyURI;

verus! {

/// Whether the presentation type is `dynamic`.
pub fn is_dynamic(t: &Option<PresentationType>) -> (r: bool)
    ensures
        r == (*t == Some(PresentationType::Dynamic)),
{
    match t {
        Some(PresentationType::Dynamic) => true,
        _ => false,
    }
}

/// The schema location used when none is given: the namespace and the
/// schema file.
pub fn default_schema_location() -> (r: StringVector)
    ensures
        r.view() == seq![MPD_NAMESPACE@, MPD_SCHEMA_FILE@],
{
    let v = vec![MPD_NAMESPACE.to_owned(), MPD_SCHEMA_FILE.to_owned()];
    let r = WhitespaceSeparatedList::from(v);
    assert(r.view() =~= seq![MPD_NAMESPACE@, MPD_SCHEMA_FILE@]);
    r
}

/// Media presentation description: the root of the document.
///
/// Built only through [`MPDBuilder`], which checks its rules.
#[derive(Debug, Clone, PartialEq, Eq)]
pub struct MPD {
    xmlns: Option<String>,
    xmlns_xsi: Option<String>,
    xmlns_ext: Option<String>,
    xmlns_xlink: Option<String>,
    xmlns_cenc: Option<String>,
    xmlns_dvb: Option<String>,
    xmlns_scte35: Option<String>,
    xmlns_scte214: Option<String>,
    xsi_schema_location: Option<StringVector>,
    id: Option<String>,
    profiles: ListOfProfiles,
    type_: Option<PresentationType>,
    availability_start_time: Option<XsDateTime>,
    publish_time: Option<XsDateTime>,
    availability_end_time: Option<XsDateTime>,
    media_presentation_duration: Option<XsDuration>,
    minimum_undate_period: Option<XsDuration>,
    min_buffer_time: XsDuration,
    time_shift_buffer_depth: Option<XsDuration>,
    suggested_presentation_delay: Option<XsDuration>,
    max_segment_duration: Option<XsDuration>,
    max_subsegment_duration: Option<XsDuration>,
    program_information: Option<Vec<ProgramInformation>>,
    base_url: Option<Vec<BaseURL>>,
    location: Option<Vec<XsAnyURI>>,
    patch_location: Option<Vec<PatchLocation>>,
    service_description: Option<Vec<ServiceDescription>>,
    initialization_set: Option<Vec<InitializationSet>>,
    initialization_group: Option<Vec<UIntVWithID>>,
    initialization_presentation: Option<Vec<UIntVWithID>>,
    content_protection: Option<Vec<ContentProtection>>,
    period: Vec<Period>,
    metrics: Option<Vec<Metrics>>,
    essential_property: Option<Vec<Descriptor>>,
    supplemental_property: Option<Vec<Descriptor>>,
    utc_timing: Option<Vec<Descriptor>>,
    leap_second_information: Option<LeapSecondInformation>,
}

impl MPD {
    pub closed spec fn spec_xmlns(&self) -> Option<String> {
        self.xmlns
    }

    pub closed spec fn spec_xmlns_xsi(&self) -> Option<String> {
        self.xmlns_xsi
    }

    pub closed spec fn spec_xmlns_ext(&self) -> Option<String> {
        self.xmlns_ext
    }

    pub closed spec fn spec_xmlns_xlink(&self) -> Option<String> {
        self.xmlns_xlink
    }

    pub closed spec fn spec_xmlns_cenc(&self) -> Option<String> {
        self.xmlns_cenc
    }

    pub closed spec fn spec_xmlns_dvb(&self) -> Option<String> {
        self.xmlns_dvb
    }

    pub closed spec fn spec_xmlns_scte35(&self) -> Option<String> {
        self.xmlns_scte35
    }

    pub closed spec fn spec_xmlns_scte214(&self) -> Option<String> {
        self.xmlns_scte214
    }

    pub closed spec fn spec_xsi_schema_location(&self) -> Option<StringVector> {
        self.xsi_schema_location
    }

    pub closed spec fn spec_id(&self) -> Option<String> {
        self.id
    }

    pub closed spec fn spec_profiles(&self) -> ListOfProfiles {
        self.profiles
    }

    pub closed spec fn spec_type_(&self) -> Option<PresentationType> {
        self.type_
    }

    pub closed spec fn spec_availability_start_time(&self) -> Option<XsDateTime> {
        self.availability_start_time
    }

    pub closed spec fn spec_publish_time(&self) -> Option<XsDateTime> {
        self.publish_time
    }

    pub closed spec fn spec_availability_end_time(&self) -> Option<XsDateTime> {
        self.availability_end_time
    }

    pub closed spec fn spec_media_presentation_duration(&self) -> Option<XsDuration> {
        self.media_presentation_duration
    }

    pub closed spec fn spec_minimum_undate_period(&self) -> Option<XsDuration> {
        self.minimum_undate_period
    }

    pub closed spec fn spec_min_buffer_time(&self) -> XsDuration {
        self.min_buffer_time
    }

    pub closed spec fn spec_time_shift_buffer_depth(&self) -> Option<XsDuration> {
        self.time_shift_buffer_depth
    }

    pub closed spec fn spec_suggested_presentation_delay(&self) -> Option<XsDuration> {
        self.suggested_presentation_delay
    }

    pub closed spec fn spec_max_segment_duration(&self) -> Option<XsDuration> {
        self.max_segment_duration
    }

    pub closed spec fn spec_max_subsegment_duration(&self) -> Option<XsDuration> {
        self.max_subsegment_duration
    }

    pub closed spec fn spec_program_information(&self) -> Option<Vec<ProgramInformation>> {
        self.program_information
    }

    pub closed spec fn spec_base_url(&self) -> Option<Vec<BaseURL>> {
        self.base_url
    }

    pub closed spec fn spec_location(&self) -> Option<Vec<XsAnyURI>> {
        self.location
    }

    pub closed spec fn spec_patch_location(&self) -> Option<Vec<PatchLocation>> {
        self.patch_location
    }

    pub closed spec fn spec_service_description(&self) -> Option<Vec<ServiceDescription>> {
        self.service_description
    }

    pub closed spec fn spec_initialization_set(&self) -> Option<Vec<InitializationSet>> {
        self.initialization_set
    }

    pub closed spec fn spec_initialization_group(&self) -> Option<Vec<UIntVWithID>> {
        self.initialization_group
    }

    pub closed spec fn spec_initialization_presentation(&self) -> Option<Vec<UIntVWithID>> {
        self.initialization_presentation
    }

    pub closed spec fn spec_content_protection(&self) -> Option<Vec<ContentProtection>> {
        self.content_protection
    }

    pub closed spec fn spec_period(&self) -> Vec<Period> {
        self.period
    }

    pub closed spec fn spec_metrics(&self) -> Option<Vec<Metrics>> {
        self.metrics
    }

    pub closed spec fn spec_essential_property(&self) -> Option<Vec<Descriptor>> {
        self.essential_property
    }

    pub closed spec fn spec_supplemental_property(&self) -> Option<Vec<Descriptor>> {
        self.supplemental_property
    }

    pub closed spec fn spec_utc_timing(&self) -> Option<Vec<Descriptor>> {
        self.utc_timing
    }

    pub closed spec fn spec_leap_second_information(&self) -> Option<LeapSecondInformation> {
        self.leap_second_information
    }

    pub fn xmlns(&self) -> (r: &Option<String>)
        ensures
            *r == self.spec_xmlns(),
    {
        &self.xmlns
    }

    pub fn xmlns_xsi(&self) -> (r: &Option<String>)
        ensures
            *r == self.spec_xmlns_xsi(),
    {
        &self.xmlns_xsi
    }

    pub fn xmlns_ext(&self) -> (r: &Option<String>)
        ensures
            *r == self.spec_xmlns_ext(),
    {
        &self.xmlns_ext
    }

    pub fn xmlns_xlink(&self) -> (r: &Option<String>)
        ensures
            *r == self.spec_xmlns_xlink(),
    {
        &self.xmlns_xlink
    }

    pub fn xmlns_cenc(&self) -> (r: &Option<String>)
        ensures
            *r == self.spec_xmlns_cenc(),
    {
        &self.xmlns_cenc
    }

    pub fn xmlns_dvb(&self) -> (r: &Option<String>)
        ensures
            *r == self.spec_xmlns_dvb(),
    {
        &self.xmlns_dvb
    }

    pub fn xmlns_scte35(&self) -> (r: &Option<String>)
        ensures
            *r == self.spec_xmlns_scte35(),
    {
        &self.xmlns_scte35
    }

    pub fn xmlns_scte214(&self) -> (r: &Option<String>)
        ensures
            *r == self.spec_xmlns_scte214(),
    {
        &self.xmlns_scte214
    }

    pub fn xsi_schema_location(&self) -> (r: &Option<StringVector>)
        ensures
            *r == self.spec_xsi_schema_location(),
    {
        &self.xsi_schema_location
    }

    pub fn id(&self) -> (r: &Option<String>)
        ensures
            *r == self.spec_id(),
    {
        &self.id
    }

    pub fn profiles(&self) -> (r: &ListOfProfiles)
        ensures
            *r == self.spec_profiles(),
    {
        &self.profiles
    }

    pub fn type_(&self) -> (r: &Option<PresentationType>)
        ensures
            *r == self.spec_type_(),
    {
        &self.type_
    }

    pub fn availability_start_time(&self) -> (r: &Option<XsDateTime>)
        ensures
            *r == self.spec_availability_start_time(),
    {
        &self.availability_start_time
    }

    pub fn publish_time(&self) -> (r: &Option<XsDateTime>)
        ensures
            *r == self.spec_publish_time(),
    {
        &self.publish_time
    }

    pub fn availability_end_time(&self) -> (r: &Option<XsDateTime>)
        ensures
            *r == self.spec_availability_end_time(),
    {
        &self.availability_end_time
    }

    pub fn media_presentation_duration(&self) -> (r: &Option<XsDuration>)
        ensures
            *r == self.spec_media_presentation_duration(),
    {
        &self.media_presentation_duration
    }

    pub fn minimum_undate_period(&self) -> (r: &Option<XsDuration>)
        ensures
            *r == self.spec_minimum_undate_period(),
    {
        &self.minimum_undate_period
    }

    pub fn min_buffer_time(&self) -> (r: &XsDuration)
        ensures
            *r == self.spec_min_buffer_time(),
    {
        &self.min_buffer_time
    }

    pub fn time_shift_buffer_depth(&self) -> (r: &Option<XsDuration>)
        ensures
            *r == self.spec_time_shift_buffer_depth(),
    {
        &self.time_shift_buffer_depth
    }

    pub fn suggested_presentation_delay(&self) -> (r: &Option<XsDuration>)
        ensures
            *r == self.spec_suggested_presentation_delay(),
    {
        &self.suggested_presentation_delay
    }

    pub fn max_segment_duration(&self) -> (r: &Option<XsDuration>)
        ensures
            *r == self.spec_max_segment_duration(),
    {
        &self.max_segment_duration
    }

    pub fn max_subsegment_duration(&self) -> (r: &Option<XsDuration>)
        ensures
            *r == self.spec_max_subsegment_duration(),
    {
        &self.max_subsegment_duration
    }

    pub fn program_information(&self) -> (r: &Option<Vec<ProgramInformation>>)
        ensures
            *r == self.spec_program_information(),
    {
        &self.program_information
    }

    pub fn base_url(&self) -> (r: &Option<Vec<BaseURL>>)
        ensures
            *r == self.spec_base_url(),
    {
        &self.base_url
    }

    pub fn location(&self) -> (r: &Option<Vec<XsAnyURI>>)
        ensures
            *r == self.spec_location(),
    {
        &self.location
    }

    pub fn patch_location(&self) -> (r: &Option<Vec<PatchLocation>>)
        ensures
            *r == self.spec_patch_location(),
    {
        &self.patch_location
    }

    pub fn service_description(&self) -> (r: &Option<Vec<ServiceDescription>>)
        ensures
            *r == self.spec_service_description(),
    {
        &self.service_description
    }

    pub fn initialization_set(&self) -> (r: &Option<Vec<InitializationSet>>)
        ensures
            *r == self.spec_initialization_set(),
    {
        &self.initialization_set
    }

    pub fn initialization_group(&self) -> (r: &Option<Vec<UIntVWithID>>)
        ensures
            *r == self.spec_initialization_group(),
    {
        &self.initialization_group
    }

    pub fn initialization_presentation(&self) -> (r: &Option<Vec<UIntVWithID>>)
        ensures
            *r == self.spec_initialization_presentation(),
    {
        &self.initialization_presentation
    }

    pub fn content_protection(&self) -> (r: &Option<Vec<ContentProtection>>)
        ensures
            *r == self.spec_content_protection(),
    {
        &self.content_protection
    }

    pub fn period(&self) -> (r: &Vec<Period>)
        ensures
            *r == self.spec_period(),
    {
        &self.period
    }

    pub fn metrics(&self) -> (r: &Option<Vec<Metrics>>)
        ensures
            *r == self.spec_metrics(),
    {
        &self.metrics
    }

    pub fn essential_property(&self) -> (r: &Option<Vec<Descriptor>>)
        ensures
            *r == self.spec_essential_property(),
    {
        &self.essential_property
    }

    pub fn supplemental_property(&self) -> (r: &Option<Vec<Descriptor>>)
        ensures
            *r == self.spec_supplemental_property(),
    {
        &self.supplemental_property
    }

    pub fn utc_timing(&self) -> (r: &Option<Vec<Descriptor>>)
        ensures
            *r == self.spec_utc_timing(),
    {
        &self.utc_timing
    }

    pub fn leap_second_information(&self) -> (r: &Option<LeapSecondInformation>)
        ensures
            *r == self.spec_leap_second_information(),
    {
        &self.leap_second_information
    }
}

/// Accumulates the fields of a [`MPD`]; [`MPDBuilder::build`] checks them.
#[derive(Debug, Default, Clone)]
pub struct MPDBuilder {
    pub xmlns: Option<String>,
    pub xmlns_xsi: Option<String>,
    pub xmlns_ext: Option<String>,
    pub xmlns_xlink: Option<String>,
    pub xmlns_cenc: Option<String>,
    pub xmlns_dvb: Option<String>,
    pub xmlns_scte35: Option<String>,
    pub xmlns_scte214: Option<String>,
    pub xsi_schema_location: Option<StringVector>,
    pub id: Option<String>,
    pub profiles: Option<ListOfProfiles>,
    pub type_: Option<PresentationType>,
    pub availability_start_time: Option<XsDateTime>,
    pub publish_time: Option<XsDateTime>,
    pub availability_end_time: Option<XsDateTime>,
    pub media_presentation_duration: Option<XsDuration>,
    pub minimum_undate_period: Option<XsDuration>,
    pub min_buffer_time: Option<XsDuration>,
    pub time_shift_buffer_depth: Option<XsDuration>,
    pub suggested_presentation_delay: Option<XsDuration>,
    pub max_segment_duration: Option<XsDuration>,
    pub max_subsegment_duration: Option<XsDuration>,
    pub program_information: Option<Vec<ProgramInformation>>,
    pub base_url: Option<Vec<BaseURL>>,
    pub location: Option<Vec<XsAnyURI>>,
    pub patch_location: Option<Vec<PatchLocation>>,
    pub service_description: Option<Vec<ServiceDescription>>,
    pub initialization_set: Option<Vec<InitializationSet>>,
    pub initialization_group: Option<Vec<UIntVWithID>>,
    pub initialization_presentation: Option<Vec<UIntVWithID>>,
    pub content_protection: Option<Vec<ContentProtection>>,
    pub period: Option<Vec<Period>>,
    pub metrics: Option<Vec<Metrics>>,
    pub essential_property: Option<Vec<Descriptor>>,
    pub supplemental_property: Option<Vec<Descriptor>>,
    pub utc_timing: Option<Vec<Descriptor>>,
    pub leap_second_information: Option<LeapSecondInformation>,
}

impl MPDBuilder {
    /// Whether the fields meet the rules of a [`MPD`].
    pub open spec fn meets_rules(&self) -> bool {
        self.first_broken_rule() is None
    }

    pub fn xmlns(self, v: &str) -> (r: Self)
        ensures
            (r.xmlns matches Some(x) && x@ == v@),
            r == (MPDBuilder { xmlns: r.xmlns, ..self }),
    {
        MPDBuilder { xmlns: Some(v.to_owned()), ..self }
    }

    pub fn xmlns_xsi(self, v: &str) -> (r: Self)
        ensures
            (r.xmlns_xsi matches Some(x) && x@ == v@),
            r == (MPDBuilder { xmlns_xsi: r.xmlns_xsi, ..self }),
    {
        MPDBuilder { xmlns_xsi: Some(v.to_owned()), ..self }
    }

    pub fn xmlns_ext(self, v: &str) -> (r: Self)
        ensures
            (r.xmlns_ext matches Some(x) && x@ == v@),
            r == (MPDBuilder { xmlns_ext: r.xmlns_ext, ..self }),
    {
        MPDBuilder { xmlns_ext: Some(v.to_owned()), ..self }
    }

    pub fn xmlns_xlink(self, v: &str) -> (r: Self)
        ensures
            (r.xmlns_xlink matches Some(x) && x@ == v@),
            r == (MPDBuilder { xmlns_xlink: r.xmlns_xlink, ..self }),
    {
        MPDBuilder { xmlns_xlink: Some(v.to_owned()), ..self }
    }

    pub fn xmlns_cenc(self, v: &str) -> (r: Self)
        ensures
            (r.xmlns_cenc matches Some(x) && x@ == v@),
            r == (MPDBuilder { xmlns_cenc: r.xmlns_cenc, ..self }),
    {
        MPDBuilder { xmlns_cenc: Some(v.to_owned()), ..self }
    }

    pub fn xmlns_dvb(self, v: &str) -> (r: Self)
        ensures
            (r.xmlns_dvb matches Some(x) && x@ == v@),
            r == (MPDBuilder { xmlns_dvb: r.xmlns_dvb, ..self }),
    {
        MPDBuilder { xmlns_dvb: Some(v.to_owned()), ..self }
    }

    pub fn xmlns_scte35(self, v: &str) -> (r: Self)
        ensures
            (r.xmlns_scte35 matches Some(x) && x@ == v@),
            r == (MPDBuilder { xmlns_scte35: r.xmlns_scte35, ..self }),
    {
        MPDBuilder { xmlns_scte35: Some(v.to_owned()), ..self }
    }

    pub fn xmlns_scte214(self, v: &str) -> (r: Self)
        ensures
            (r.xmlns_scte214 matches Some(x) && x@ == v@),
            r == (MPDBuilder { xmlns_scte214: r.xmlns_scte214, ..self }),
    {
        MPDBuilder { xmlns_scte214: Some(v.to_owned()), ..self }
    }

    pub fn xsi_schema_location(self, v: StringVector) -> (r: Self)
        ensures
            r == (MPDBuilder { xsi_schema_location: Some(v), ..self }),
    {
        MPDBuilder { xsi_schema_location: Some(v), ..self }
    }

    pub fn id(self, v: &str) -> (r: Self)
        ensures
            (r.id matches Some(x) && x@ == v@),
            r == (MPDBuilder { id: r.id, ..self }),
    {
        MPDBuilder { id: Some(v.to_owned()), ..self }
    }

    pub fn profiles(self, v: Vec<Profile>) -> (r: Self)
        ensures
            (r.profiles matches Some(x) && x.view() == v@.map_values(|p: Profile| p.view())),
            r == (MPDBuilder { profiles: r.profiles, ..self }),
    {
        MPDBuilder { profiles: Some(ListOfProfiles::from(v)), ..self }
    }

    pub fn type_(self, v: PresentationType) -> (r: Self)
        ensures
            r == (MPDBuilder { type_: Some(v), ..self }),
    {
        MPDBuilder { type_: Some(v), ..self }
    }

    pub fn availability_start_time(self, v: XsDateTime) -> (r: Self)
        ensures
            r == (MPDBuilder { availability_start_time: Some(v), ..self }),
    {
        MPDBuilder { availability_start_time: Some(v), ..self }
    }

    pub fn publish_time(self, v: XsDateTime) -> (r: Self)
        ensures
            r == (MPDBuilder { publish_time: Some(v), ..self }),
    {
        MPDBuilder { publish_time: Some(v), ..self }
    }

    pub fn availability_end_time(self, v: XsDateTime) -> (r: Self)
        ensures
            r == (MPDBuilder { availability_end_time: Some(v), ..self }),
    {
        MPDBuilder { availability_end_time: Some(v), ..self }
    }

    pub fn media_presentation_duration(self, v: XsDuration) -> (r: Self)
        ensures
            r == (MPDBuilder { media_presentation_duration: Some(v), ..self }),
    {
        MPDBuilder { media_presentation_duration: Some(v), ..self }
    }

    pub fn minimum_undate_period(self, v: XsDuration) -> (r: Self)
        ensures
            r == (MPDBuilder { minimum_undate_period: Some(v), ..self }),
    {
        MPDBuilder { minimum_undate_period: Some(v), ..self }
    }

    pub fn min_buffer_time(self, v: XsDuration) -> (r: Self)
        ensures
            r == (MPDBuilder { min_buffer_time: Some(v), ..self }),
    {
        MPDBuilder { min_buffer_time: Some(v), ..self }
    }

    pub fn time_shift_buffer_depth(self, v: XsDuration) -> (r: Self)
        ensures
            r == (MPDBuilder { time_shift_buffer_depth: Some(v), ..self }),
    {
        MPDBuilder { time_shift_buffer_depth: Some(v), ..self }
    }

    pub fn suggested_presentation_delay(self, v: XsDuration) -> (r: Self)
        ensures
            r == (MPDBuilder { suggested_presentation_delay: Some(v), ..self }),
    {
        MPDBuilder { suggested_presentation_delay: Some(v), ..self }
    }

    pub fn max_segment_duration(self, v: XsDuration) -> (r: Self)
        ensures
            r == (MPDBuilder { max_segment_duration: Some(v), ..self }),
    {
        MPDBuilder { max_segment_duration: Some(v), ..self }
    }

    pub fn max_subsegment_duration(self, v: XsDuration) -> (r: Self)
        ensures
            r == (MPDBuilder { max_subsegment_duration: Some(v), ..self }),
    {
        MPDBuilder { max_subsegment_duration: Some(v), ..self }
    }

    pub fn program_information(self, v: Vec<ProgramInformation>) -> (r: Self)
        ensures
            r == (MPDBuilder { program_information: Some(v), ..self }),
    {
        MPDBuilder { program_information: Some(v), ..self }
    }

    pub fn base_url(self, v: Vec<BaseURL>) -> (r: Self)
        ensures
            r == (MPDBuilder { base_url: Some(v), ..self }),
    {
        MPDBuilder { base_url: Some(v), ..self }
    }

    pub fn location(self, v: Vec<XsAnyURI>) -> (r: Self)
        ensures
            r == (MPDBuilder { location: Some(v), ..self }),
    {
        MPDBuilder { location: Some(v), ..self }
    }

    pub fn patch_location(self, v: Vec<PatchLocation>) -> (r: Self)
        ensures
            r == (MPDBuilder { patch_location: Some(v), ..self }),
    {
        MPDBuilder { patch_location: Some(v), ..self }
    }

    pub fn service_description(self, v: Vec<ServiceDescription>) -> (r: Self)
        ensures
            r == (MPDBuilder { service_description: Some(v), ..self }),
    {
        MPDBuilder { service_description: Some(v), ..self }
    }

    pub fn initialization_set(self, v: Vec<InitializationSet>) -> (r: Self)
        ensures
            r == (MPDBuilder { initialization_set: Some(v), ..self }),
    {
        MPDBuilder { initialization_set: Some(v), ..self }
    }

    pub fn initialization_group(self, v: Vec<UIntVWithID>) -> (r: Self)
        ensures
            r == (MPDBuilder { initialization_group: Some(v), ..self }),
    {
        MPDBuilder { initialization_group: Some(v), ..self }
    }

    pub fn initialization_presentation(self, v: Vec<UIntVWithID>) -> (r: Self)
        ensures
            r == (MPDBuilder { initialization_presentation: Some(v), ..self }),
    {
        MPDBuilder { initialization_presentation: Some(v), ..self }
    }

    pub fn content_protection(self, v: Vec<ContentProtection>) -> (r: Self)
        ensures
            r == (MPDBuilder { content_protection: Some(v), ..self }),
    {
        MPDBuilder { content_protection: Some(v), ..self }
    }

    pub fn period(self, v: Vec<Period>) -> (r: Self)
        ensures
            r == (MPDBuilder { period: Some(v), ..self }),
    {
        MPDBuilder { period: Some(v), ..self }
    }

    pub fn metrics(self, v: Vec<Metrics>) -> (r: Self)
        ensures
            r == (MPDBuilder { metrics: Some(v), ..self }),
    {
        MPDBuilder { metrics: Some(v), ..self }
    }

    pub fn essential_property(self, v: Vec<Descriptor>) -> (r: Self)
        ensures
            r == (MPDBuilder { essential_property: Some(v), ..self }),
    {
        MPDBuilder { essential_property: Some(v), ..self }
    }

    pub fn supplemental_property(self, v: Vec<Descriptor>) -> (r: Self)
        ensures
            r == (MPDBuilder { supplemental_property: Some(v), ..self }),
    {
        MPDBuilder { supplemental_property: Some(v), ..self }
    }

    pub fn utc_timing(self, v: Vec<Descriptor>) -> (r: Self)
        ensures
            r == (MPDBuilder { utc_timing: Some(v), ..self }),
    {
        MPDBuilder { utc_timing: Some(v), ..self }
    }

    pub fn leap_second_information(self, v: LeapSecondInformation) -> (r: Self)
        ensures
            r == (MPDBuilder { leap_second_information: Some(v), ..self }),
    {
        MPDBuilder { leap_second_information: Some(v), ..self }
    }

    /// Checks the rules and makes the [`MPD`].
    pub fn build(self) -> (r: Result<MPD, MpdError>)
        ensures
            r is Ok <==> self.meets_rules(),
            self.first_broken_rule() matches Some(e) ==> r == Err::<MPD, MpdError>(e),
            r matches Ok(e) ==> (self.xmlns is Some ==> e.spec_xmlns() == self.xmlns),
            r matches Ok(e) ==>
                (self.xmlns is None ==> (e.spec_xmlns() matches Some(x) && x@ == MPD_NAMESPACE@)),
            r matches Ok(e) ==> (self.xmlns_xsi is Some ==> e.spec_xmlns_xsi() == self.xmlns_xsi),
            r matches Ok(e) ==>
                (self.xmlns_xsi is None ==> (e.spec_xmlns_xsi() matches Some(x) && x@ == MPD_SCHEMA_INSTANCE@)),
            r matches Ok(e) ==> e.spec_xmlns_ext() == self.xmlns_ext,
            r matches Ok(e) ==> e.spec_xmlns_xlink() == self.xmlns_xlink,
            r matches Ok(e) ==> e.spec_xmlns_cenc() == self.xmlns_cenc,
            r matches Ok(e) ==> e.spec_xmlns_dvb() == self.xmlns_dvb,
            r matches Ok(e) ==> e.spec_xmlns_scte35() == self.xmlns_scte35,
            r matches Ok(e) ==> e.spec_xmlns_scte214() == self.xmlns_scte214,
            r matches Ok(e) ==>
                (self.xsi_schema_location is Some ==> e.spec_xsi_schema_location() == self.xsi_schema_location),
            r matches Ok(e) ==>
                (self.xsi_schema_location is None ==> (e.spec_xsi_schema_location() matches Some(x) && x.view() == seq![MPD_NAMESPACE@, MPD_SCHEMA_FILE@])),
            r matches Ok(e) ==> e.spec_id() == self.id,
            r matches Ok(e) ==> self.profiles == Some(e.spec_profiles()),
            r matches Ok(e) ==> e.spec_type_() == self.type_,
            r matches Ok(e) ==> e.spec_availability_start_time() == self.availability_start_time,
            r matches Ok(e) ==> e.spec_publish_time() == self.publish_time,
            r matches Ok(e) ==> e.spec_availability_end_time() == self.availability_end_time,
            r matches Ok(e) ==>
                e.spec_media_presentation_duration() == self.media_presentation_duration,
            r matches Ok(e) ==> e.spec_minimum_undate_period() == self.minimum_undate_period,
            r matches Ok(e) ==>
                (self.min_buffer_time is Some ==> self.min_buffer_time == Some(e.spec_min_buffer_time())),
            r matches Ok(e) ==>
                (self.min_buffer_time is None ==> e.spec_min_buffer_time().view() == (false, 0nat, 0nat)),
            r matches Ok(e) ==> e.spec_time_shift_buffer_depth() == self.time_shift_buffer_depth,
            r matches Ok(e) ==>
                e.spec_suggested_presentation_delay() == self.suggested_presentation_delay,
            r matches Ok(e) ==> e.spec_max_segment_duration() == self.max_segment_duration,
            r matches Ok(e) ==> e.spec_max_subsegment_duration() == self.max_subsegment_duration,
            r matches Ok(e) ==> e.spec_program_information() == self.program_information,
            r matches Ok(e) ==> e.spec_base_url() == self.base_url,
            r matches Ok(e) ==> e.spec_location() == self.location,
            r matches Ok(e) ==> e.spec_patch_location() == self.patch_location,
            r matches Ok(e) ==> e.spec_service_description() == self.service_description,
            r matches Ok(e) ==> e.spec_initialization_set() == self.initialization_set,
            r matches Ok(e) ==> e.spec_initialization_group() == self.initialization_group,
            r matches Ok(e) ==>
                e.spec_initialization_presentation() == self.initialization_presentation,
            r matches Ok(e) ==> e.spec_content_protection() == self.content_protection,
            r matches Ok(e) ==> (self.period is Some ==> self.period == Some(e.spec_period())),
            r matches Ok(e) ==> (self.period is None ==> e.spec_period()@.len() == 0),
            r matches Ok(e) ==> e.spec_metrics() == self.metrics,
            r matches Ok(e) ==> e.spec_essential_property() == self.essential_property,
            r matches Ok(e) ==> e.spec_supplemental_property() == self.supplemental_property,
            r matches Ok(e) ==> e.spec_utc_timing() == self.utc_timing,
            r matches Ok(e) ==> e.spec_leap_second_information() == self.leap_second_information,
    {
        if let Err(e) = self.validate() {
            return Err(e);
        }
        let xmlns = match self.xmlns {
            Some(v) => Some(v),
            None => Some(MPD_NAMESPACE.to_owned()),
        };
        let xmlns_xsi = match self.xmlns_xsi {
            Some(v) => Some(v),
            None => Some(MPD_SCHEMA_INSTANCE.to_owned()),
        };
        let xsi_schema_location = match self.xsi_schema_location {
            Some(v) => Some(v),
            None => Some(default_schema_location()),
        };
        let profiles = match self.profiles {
            Some(v) => v,
            None => return Err(MpdError::MissingRequiredField("profiles")),
        };
        let min_buffer_time = match self.min_buffer_time {
            Some(v) => v,
            None => XsDuration::from_secs(0),
        };
        let period = match self.period {
            Some(v) => v,
            None => Vec::new(),
        };
        Ok(MPD {
            xmlns,
            xmlns_xsi,
            xmlns_ext: self.xmlns_ext,
            xmlns_xlink: self.xmlns_xlink,
            xmlns_cenc: self.xmlns_cenc,
            xmlns_dvb: self.xmlns_dvb,
            xmlns_scte35: self.xmlns_scte35,
            xmlns_scte214: self.xmlns_scte214,
            xsi_schema_location,
            id: self.id,
            profiles,
            type_: self.type_,
            availability_start_time: self.availability_start_time,
            publish_time: self.publish_time,
            availability_end_time: self.availability_end_time,
            media_presentation_duration: self.media_presentation_duration,
            minimum_undate_period: self.minimum_undate_period,
            min_buffer_time,
            time_shift_buffer_depth: self.time_shift_buffer_depth,
            suggested_presentation_delay: self.suggested_presentation_delay,
            max_segment_duration: self.max_segment_duration,
            max_subsegment_duration: self.max_subsegment_duration,
            program_information: self.program_information,
            base_url: self.base_url,
            location: self.location,
            patch_location: self.patch_location,
            service_description: self.service_description,
            initialization_set: self.initialization_set,
            initialization_group: self.initialization_group,
            initialization_presentation: self.initialization_presentation,
            content_protection: self.content_protection,
            period,
            metrics: self.metrics,
            essential_property: self.essential_property,
            supplemental_property: self.supplemental_property,
            utc_timing: self.utc_timing,
            leap_second_information: self.leap_second_information,
        })
    }
}

impl NeedValidater for MPDBuilder {
    open spec fn first_broken_rule(&self) -> Option<MpdError> {
        if self.profiles is None {
            Some(MpdError::MissingRequiredField("profiles"))
        } else if (self.profiles matches Some(p) && p.view().len() == 0) {
            Some(MpdError::EmptyRequiredCollection("profiles"))
        } else if self.type_ == Some(PresentationType::Dynamic) && (self.availability_start_time is None || self.publish_time is None) {
            Some(MpdError::MissingRequiredField("availability_start_time, publish_time"))
        } else {
            None
        }
    }

    fn validate(&self) -> (r: Result<(), MpdError>) {
        if self.profiles.is_none() {
            return Err(MpdError::MissingRequiredField("profiles"));
        }
        if match &self.profiles { Some(p) => p.is_empty(), None => false } {
            return Err(MpdError::EmptyRequiredCollection("profiles"));
        }
        if is_dynamic(&self.type_) && (self.availability_start_time.is_none() || self.publish_time.is_none()) {
            return Err(MpdError::MissingRequiredField("availability_start_time, publish_time"));
        }
        Ok(())
    }
}

} // verus!
