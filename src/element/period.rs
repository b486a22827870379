use vstd::prelude::*;

use crate::duration::XsDuration;
use crate::element::{
    BaseURL, ContentProtection, Descriptor, EventStream, Label, NeedValidater, Preselection,
    ServiceDescription, Subset,
};
use crate::element::adapt::AdaptationSet;
use crate::element::segment::{SegmentBase, SegmentList, SegmentTemplate};
use crate::enums::XLinkActure;
use crate::error::MpdError;

verus! {


/// Period.
///
/// Built only through [`PeriodBuilder`], which checks its rules.
#[derive(Debug, Clone, PartialEq, Eq)]
pub struct Period {
    href: Option<String>,
    actuate: Option<XLinkActure>,
    id: Option<u32>,
    start: Option<XsDuration>,
    duration: Option<XsDuration>,
    bitstream_switching: Option<bool>,
    base_url: Option<Vec<BaseURL>>,
    segment_base: Option<SegmentBase>,
    segment_list: Option<SegmentList>,
    segment_template: Option<SegmentTemplate>,
    asset_identifier: Option<Descriptor>,
    event_stream: Option<Vec<EventStream>>,
    service_description: Option<Vec<ServiceDescription>>,
    content_protection: Option<Vec<ContentProtection>>,
    adaptation_set: Option<Vec<AdaptationSet>>,
    subset: Option<Vec<Subset>>,
    supplemental_property: Option<Vec<Descriptor>>,
    empty_adaptation_set: Option<Vec<AdaptationSet>>,
    group_lavel: Option<Vec<Label>>,
    preselection: Option<Vec<Preselection>>,
}

impl Period {
    pub closed spec fn spec_href(&self) -> Option<String> {
        self.href
    }

    pub closed spec fn spec_actuate(&self) -> Option<XLinkActure> {
        self.actuate
    }

    pub closed spec fn spec_id(&self) -> Option<u32> {
        self.id
    }

    pub closed spec fn spec_start(&self) -> Option<XsDuration> {
        self.start
    }

    pub closed spec fn spec_duration(&self) -> Option<XsDuration> {
        self.duration
    }

    pub closed spec fn spec_bitstream_switching(&self) -> Option<bool> {
        self.bitstream_switching
    }

    pub closed spec fn spec_base_url(&self) -> Option<Vec<BaseURL>> {
        self.base_url
    }

    pub closed spec fn spec_segment_base(&self) -> Option<SegmentBase> {
        self.segment_base
    }

    pub closed spec fn spec_segment_list(&self) -> Option<SegmentList> {
        self.segment_list
    }

    pub closed spec fn spec_segment_template(&self) -> Option<SegmentTemplate> {
        self.segment_template
    }

    pub closed spec fn spec_asset_identifier(&self) -> Option<Descriptor> {
        self.asset_identifier
    }

    pub closed spec fn spec_event_stream(&self) -> Option<Vec<EventStream>> {
        self.event_stream
    }

    pub closed spec fn spec_service_description(&self) -> Option<Vec<ServiceDescription>> {
        self.service_description
    }

    pub closed spec fn spec_content_protection(&self) -> Option<Vec<ContentProtection>> {
        self.content_protection
    }

    pub closed spec fn spec_adaptation_set(&self) -> Option<Vec<AdaptationSet>> {
        self.adaptation_set
    }

    pub closed spec fn spec_subset(&self) -> Option<Vec<Subset>> {
        self.subset
    }

    pub closed spec fn spec_supplemental_property(&self) -> Option<Vec<Descriptor>> {
        self.supplemental_property
    }

    pub closed spec fn spec_empty_adaptation_set(&self) -> Option<Vec<AdaptationSet>> {
        self.empty_adaptation_set
    }

    pub closed spec fn spec_group_lavel(&self) -> Option<Vec<Label>> {
        self.group_lavel
    }

    pub closed spec fn spec_preselection(&self) -> Option<Vec<Preselection>> {
        self.preselection
    }

    pub fn href(&self) -> (r: &Option<String>)
        ensures
            *r == self.spec_href(),
    {
        &self.href
    }

    pub fn actuate(&self) -> (r: &Option<XLinkActure>)
        ensures
            *r == self.spec_actuate(),
    {
        &self.actuate
    }

    pub fn id(&self) -> (r: &Option<u32>)
        ensures
            *r == self.spec_id(),
    {
        &self.id
    }

    pub fn start(&self) -> (r: &Option<XsDuration>)
        ensures
            *r == self.spec_start(),
    {
        &self.start
    }

    pub fn duration(&self) -> (r: &Option<XsDuration>)
        ensures
            *r == self.spec_duration(),
    {
        &self.duration
    }

    pub fn bitstream_switching(&self) -> (r: &Option<bool>)
        ensures
            *r == self.spec_bitstream_switching(),
    {
        &self.bitstream_switching
    }

    pub fn base_url(&self) -> (r: &Option<Vec<BaseURL>>)
        ensures
            *r == self.spec_base_url(),
    {
        &self.base_url
    }

    pub fn segment_base(&self) -> (r: &Option<SegmentBase>)
        ensures
            *r == self.spec_segment_base(),
    {
        &self.segment_base
    }

    pub fn segment_list(&self) -> (r: &Option<SegmentList>)
        ensures
            *r == self.spec_segment_list(),
    {
        &self.segment_list
    }

    pub fn segment_template(&self) -> (r: &Option<SegmentTemplate>)
        ensures
            *r == self.spec_segment_template(),
    {
        &self.segment_template
    }

    pub fn asset_identifier(&self) -> (r: &Option<Descriptor>)
        ensures
            *r == self.spec_asset_identifier(),
    {
        &self.asset_identifier
    }

    pub fn event_stream(&self) -> (r: &Option<Vec<EventStream>>)
        ensures
            *r == self.spec_event_stream(),
    {
        &self.event_stream
    }

    pub fn service_description(&self) -> (r: &Option<Vec<ServiceDescription>>)
        ensures
            *r == self.spec_service_description(),
    {
        &self.service_description
    }

    pub fn content_protection(&self) -> (r: &Option<Vec<ContentProtection>>)
        ensures
            *r == self.spec_content_protection(),
    {
        &self.content_protection
    }

    pub fn adaptation_set(&self) -> (r: &Option<Vec<AdaptationSet>>)
        ensures
            *r == self.spec_adaptation_set(),
    {
        &self.adaptation_set
    }

    pub fn subset(&self) -> (r: &Option<Vec<Subset>>)
        ensures
            *r == self.spec_subset(),
    {
        &self.subset
    }

    pub fn supplemental_property(&self) -> (r: &Option<Vec<Descriptor>>)
        ensures
            *r == self.spec_supplemental_property(),
    {
        &self.supplemental_property
    }

    pub fn empty_adaptation_set(&self) -> (r: &Option<Vec<AdaptationSet>>)
        ensures
            *r == self.spec_empty_adaptation_set(),
    {
        &self.empty_adaptation_set
    }

    pub fn group_lavel(&self) -> (r: &Option<Vec<Label>>)
        ensures
            *r == self.spec_group_lavel(),
    {
        &self.group_lavel
    }

    pub fn preselection(&self) -> (r: &Option<Vec<Preselection>>)
        ensures
            *r == self.spec_preselection(),
    {
        &self.preselection
    }
}

/// Accumulates the fields of a [`Period`]; [`PeriodBuilder::build`] checks them.
#[derive(Debug, Default, Clone)]
pub struct PeriodBuilder {
    pub href: Option<String>,
    pub actuate: Option<XLinkActure>,
    pub id: Option<u32>,
    pub start: Option<XsDuration>,
    pub duration: Option<XsDuration>,
    pub bitstream_switching: Option<bool>,
    pub base_url: Option<Vec<BaseURL>>,
    pub segment_base: Option<SegmentBase>,
    pub segment_list: Option<SegmentList>,
    pub segment_template: Option<SegmentTemplate>,
    pub asset_identifier: Option<Descriptor>,
    pub event_stream: Option<Vec<EventStream>>,
    pub service_description: Option<Vec<ServiceDescription>>,
    pub content_protection: Option<Vec<ContentProtection>>,
    pub adaptation_set: Option<Vec<AdaptationSet>>,
    pub subset: Option<Vec<Subset>>,
    pub supplemental_property: Option<Vec<Descriptor>>,
    pub empty_adaptation_set: Option<Vec<AdaptationSet>>,
    pub group_lavel: Option<Vec<Label>>,
    pub preselection: Option<Vec<Preselection>>,
}

impl PeriodBuilder {
    /// Whether the fields meet the rules of a [`Period`].
    pub open spec fn meets_rules(&self) -> bool {
        self.first_broken_rule() is None
    }

    pub fn href(self, v: &str) -> (r: Self)
        ensures
            (r.href matches Some(x) && x@ == v@),
            r == (PeriodBuilder { href: r.href, ..self }),
    {
        PeriodBuilder { href: Some(v.to_owned()), ..self }
    }

    pub fn actuate(self, v: XLinkActure) -> (r: Self)
        ensures
            r == (PeriodBuilder { actuate: Some(v), ..self }),
    {
        PeriodBuilder { actuate: Some(v), ..self }
    }

    pub fn id(self, v: u32) -> (r: Self)
        ensures
            r == (PeriodBuilder { id: Some(v), ..self }),
    {
        PeriodBuilder { id: Some(v), ..self }
    }

    pub fn start(self, v: XsDuration) -> (r: Self)
        ensures
            r == (PeriodBuilder { start: Some(v), ..self }),
    {
        PeriodBuilder { start: Some(v), ..self }
    }

    pub fn duration(self, v: XsDuration) -> (r: Self)
        ensures
            r == (PeriodBuilder { duration: Some(v), ..self }),
    {
        PeriodBuilder { duration: Some(v), ..self }
    }

    pub fn bitstream_switching(self, v: bool) -> (r: Self)
        ensures
            r == (PeriodBuilder { bitstream_switching: Some(v), ..self }),
    {
        PeriodBuilder { bitstream_switching: Some(v), ..self }
    }

    pub fn base_url(self, v: Vec<BaseURL>) -> (r: Self)
        ensures
            r == (PeriodBuilder { base_url: Some(v), ..self }),
    {
        PeriodBuilder { base_url: Some(v), ..self }
    }

    pub fn segment_base(self, v: SegmentBase) -> (r: Self)
        ensures
            r == (PeriodBuilder { segment_base: Some(v), ..self }),
    {
        PeriodBuilder { segment_base: Some(v), ..self }
    }

    pub fn segment_list(self, v: SegmentList) -> (r: Self)
        ensures
            r == (PeriodBuilder { segment_list: Some(v), ..self }),
    {
        PeriodBuilder { segment_list: Some(v), ..self }
    }

    pub fn segment_template(self, v: SegmentTemplate) -> (r: Self)
        ensures
            r == (PeriodBuilder { segment_template: Some(v), ..self }),
    {
        PeriodBuilder { segment_template: Some(v), ..self }
    }

    pub fn asset_identifier(self, v: Descriptor) -> (r: Self)
        ensures
            r == (PeriodBuilder { asset_identifier: Some(v), ..self }),
    {
        PeriodBuilder { asset_identifier: Some(v), ..self }
    }

    pub fn event_stream(self, v: Vec<EventStream>) -> (r: Self)
        ensures
            r == (PeriodBuilder { event_stream: Some(v), ..self }),
    {
        PeriodBuilder { event_stream: Some(v), ..self }
    }

    pub fn service_description(self, v: Vec<ServiceDescription>) -> (r: Self)
        ensures
            r == (PeriodBuilder { service_description: Some(v), ..self }),
    {
        PeriodBuilder { service_description: Some(v), ..self }
    }

    pub fn content_protection(self, v: Vec<ContentProtection>) -> (r: Self)
        ensures
            r == (PeriodBuilder { content_protection: Some(v), ..self }),
    {
        PeriodBuilder { content_protection: Some(v), ..self }
    }

    pub fn adaptation_set(self, v: Vec<AdaptationSet>) -> (r: Self)
        ensures
            r == (PeriodBuilder { adaptation_set: Some(v), ..self }),
    {
        PeriodBuilder { adaptation_set: Some(v), ..self }
    }

    pub fn subset(self, v: Vec<Subset>) -> (r: Self)
        ensures
            r == (PeriodBuilder { subset: Some(v), ..self }),
    {
        PeriodBuilder { subset: Some(v), ..self }
    }

    pub fn supplemental_property(self, v: Vec<Descriptor>) -> (r: Self)
        ensures
            r == (PeriodBuilder { supplemental_property: Some(v), ..self }),
    {
        PeriodBuilder { supplemental_property: Some(v), ..self }
    }

    pub fn empty_adaptation_set(self, v: Vec<AdaptationSet>) -> (r: Self)
        ensures
            r == (PeriodBuilder { empty_adaptation_set: Some(v), ..self }),
    {
        PeriodBuilder { empty_adaptation_set: Some(v), ..self }
    }

    pub fn group_lavel(self, v: Vec<Label>) -> (r: Self)
        ensures
            r == (PeriodBuilder { group_lavel: Some(v), ..self }),
    {
        PeriodBuilder { group_lavel: Some(v), ..self }
    }

    pub fn preselection(self, v: Vec<Preselection>) -> (r: Self)
        ensures
            r == (PeriodBuilder { preselection: Some(v), ..self }),
    {
        PeriodBuilder { preselection: Some(v), ..self }
    }

    /// Checks the rules and makes the [`Period`].
    pub fn build(self) -> (r: Result<Period, MpdError>)
        ensures
            r is Ok <==> self.meets_rules(),
            self.first_broken_rule() matches Some(e) ==> r == Err::<Period, MpdError>(e),
            r matches Ok(e) ==> e.spec_href() == self.href,
            r matches Ok(e) ==> e.spec_actuate() == self.actuate,
            r matches Ok(e) ==> e.spec_id() == self.id,
            r matches Ok(e) ==> e.spec_start() == self.start,
            r matches Ok(e) ==> e.spec_duration() == self.duration,
            r matches Ok(e) ==> e.spec_bitstream_switching() == self.bitstream_switching,
            r matches Ok(e) ==> e.spec_base_url() == self.base_url,
            r matches Ok(e) ==> e.spec_segment_base() == self.segment_base,
            r matches Ok(e) ==> e.spec_segment_list() == self.segment_list,
            r matches Ok(e) ==> e.spec_segment_template() == self.segment_template,
            r matches Ok(e) ==> e.spec_asset_identifier() == self.asset_identifier,
            r matches Ok(e) ==> e.spec_event_stream() == self.event_stream,
            r matches Ok(e) ==> e.spec_service_description() == self.service_description,
            r matches Ok(e) ==> e.spec_content_protection() == self.content_protection,
            r matches Ok(e) ==> e.spec_adaptation_set() == self.adaptation_set,
            r matches Ok(e) ==> e.spec_subset() == self.subset,
            r matches Ok(e) ==> e.spec_supplemental_property() == self.supplemental_property,
            r matches Ok(e) ==> e.spec_empty_adaptation_set() == self.empty_adaptation_set,
            r matches Ok(e) ==> e.spec_group_lavel() == self.group_lavel,
            r matches Ok(e) ==> e.spec_preselection() == self.preselection,
    {
        if let Err(e) = self.validate() {
            return Err(e);
        }
        Ok(Period {
            href: self.href,
            actuate: self.actuate,
            id: self.id,
            start: self.start,
            duration: self.duration,
            bitstream_switching: self.bitstream_switching,
            base_url: self.base_url,
            segment_base: self.segment_base,
            segment_list: self.segment_list,
            segment_template: self.segment_template,
            asset_identifier: self.asset_identifier,
            event_stream: self.event_stream,
            service_description: self.service_description,
            content_protection: self.content_protection,
            adaptation_set: self.adaptation_set,
            subset: self.subset,
            supplemental_property: self.supplemental_property,
            empty_adaptation_set: self.empty_adaptation_set,
            group_lavel: self.group_lavel,
            preselection: self.preselection,
        })
    }
}

impl NeedValidater for PeriodBuilder {
    open spec fn first_broken_rule(&self) -> Option<MpdError> {
        if (self.segment_base is Some && self.segment_list is Some) || (self.segment_base is Some && self.segment_template is Some) || (self.segment_list is Some && self.segment_template is Some) {
            Some(MpdError::InvalidFieldCombination("segment_base, segment_list, segment_template"))
        } else {
            None
        }
    }

    fn validate(&self) -> (r: Result<(), MpdError>) {
        if (self.segment_base.is_some() && self.segment_list.is_some()) || (self.segment_base.is_some() && self.segment_template.is_some()) || (self.segment_list.is_some() && self.segment_template.is_some()) {
            return Err(MpdError::InvalidFieldCombination("segment_base, segment_list, segment_template"));
        }
        Ok(())
    }
}

} // verus!
