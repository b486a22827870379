use vstd::prelude::*;

use crate::duration::XsDuration;
use crate::element::{FailoverContent, NeedValidater, SegmentUrl, Url};
use crate::error::MpdError;
use crate::integer::XsInteger;
use crate::types::{SingleByteRange, XsDouble};

verus! {


/// Segment base.
#[derive(Debug, Clone, PartialEq, Eq, Default)]
pub struct SegmentBase {
    timescale: Option<u32>,
    presentation_time_offset: Option<u64>,
    ept_delta: Option<XsInteger>,
    pd_delta: Option<XsInteger>,
    presentation_duration: Option<u64>,
    time_shift_buffer_depth: Option<XsDuration>,
    index_range: Option<SingleByteRange>,
    index_range_exact: Option<bool>,
    availability_time_offset: Option<XsDouble>,
    availability_time_complete: Option<bool>,
    initialization: Option<Url>,
    representation_index: Option<Url>,
    failover_content: Option<FailoverContent>,
}

impl SegmentBase {
    pub closed spec fn spec_timescale(&self) -> Option<u32> {
        self.timescale
    }

    pub closed spec fn spec_presentation_time_offset(&self) -> Option<u64> {
        self.presentation_time_offset
    }

    pub closed spec fn spec_ept_delta(&self) -> Option<XsInteger> {
        self.ept_delta
    }

    pub closed spec fn spec_pd_delta(&self) -> Option<XsInteger> {
        self.pd_delta
    }

    pub closed spec fn spec_presentation_duration(&self) -> Option<u64> {
        self.presentation_duration
    }

    pub closed spec fn spec_time_shift_buffer_depth(&self) -> Option<XsDuration> {
        self.time_shift_buffer_depth
    }

    pub closed spec fn spec_index_range(&self) -> Option<SingleByteRange> {
        self.index_range
    }

    pub closed spec fn spec_index_range_exact(&self) -> Option<bool> {
        self.index_range_exact
    }

    pub closed spec fn spec_availability_time_offset(&self) -> Option<XsDouble> {
        self.availability_time_offset
    }

    pub closed spec fn spec_availability_time_complete(&self) -> Option<bool> {
        self.availability_time_complete
    }

    pub closed spec fn spec_initialization(&self) -> Option<Url> {
        self.initialization
    }

    pub closed spec fn spec_representation_index(&self) -> Option<Url> {
        self.representation_index
    }

    pub closed spec fn spec_failover_content(&self) -> Option<FailoverContent> {
        self.failover_content
    }

    pub fn timescale(&self) -> (r: &Option<u32>)
        ensures
            *r == self.spec_timescale(),
    {
        &self.timescale
    }

    pub fn presentation_time_offset(&self) -> (r: &Option<u64>)
        ensures
            *r == self.spec_presentation_time_offset(),
    {
        &self.presentation_time_offset
    }

    pub fn ept_delta(&self) -> (r: &Option<XsInteger>)
        ensures
            *r == self.spec_ept_delta(),
    {
        &self.ept_delta
    }

    pub fn pd_delta(&self) -> (r: &Option<XsInteger>)
        ensures
            *r == self.spec_pd_delta(),
    {
        &self.pd_delta
    }

    pub fn presentation_duration(&self) -> (r: &Option<u64>)
        ensures
            *r == self.spec_presentation_duration(),
    {
        &self.presentation_duration
    }

    pub fn time_shift_buffer_depth(&self) -> (r: &Option<XsDuration>)
        ensures
            *r == self.spec_time_shift_buffer_depth(),
    {
        &self.time_shift_buffer_depth
    }

    pub fn index_range(&self) -> (r: &Option<SingleByteRange>)
        ensures
            *r == self.spec_index_range(),
    {
        &self.index_range
    }

    pub fn index_range_exact(&self) -> (r: &Option<bool>)
        ensures
            *r == self.spec_index_range_exact(),
    {
        &self.index_range_exact
    }

    pub fn availability_time_offset(&self) -> (r: &Option<XsDouble>)
        ensures
            *r == self.spec_availability_time_offset(),
    {
        &self.availability_time_offset
    }

    pub fn availability_time_complete(&self) -> (r: &Option<bool>)
        ensures
            *r == self.spec_availability_time_complete(),
    {
        &self.availability_time_complete
    }

    pub fn initialization(&self) -> (r: &Option<Url>)
        ensures
            *r == self.spec_initialization(),
    {
        &self.initialization
    }

    pub fn representation_index(&self) -> (r: &Option<Url>)
        ensures
            *r == self.spec_representation_index(),
    {
        &self.representation_index
    }

    pub fn failover_content(&self) -> (r: &Option<FailoverContent>)
        ensures
            *r == self.spec_failover_content(),
    {
        &self.failover_content
    }
}

/// Accumulates the fields of a [`SegmentBase`]; [`SegmentBaseBuilder::build`] checks them.
#[derive(Debug, Default, Clone)]
pub struct SegmentBaseBuilder {
    pub timescale: Option<u32>,
    pub presentation_time_offset: Option<u64>,
    pub ept_delta: Option<XsInteger>,
    pub pd_delta: Option<XsInteger>,
    pub presentation_duration: Option<u64>,
    pub time_shift_buffer_depth: Option<XsDuration>,
    pub index_range: Option<SingleByteRange>,
    pub index_range_exact: Option<bool>,
    pub availability_time_offset: Option<XsDouble>,
    pub availability_time_complete: Option<bool>,
    pub initialization: Option<Url>,
    pub representation_index: Option<Url>,
    pub failover_content: Option<FailoverContent>,
}

impl SegmentBaseBuilder {
    pub fn timescale(self, v: u32) -> (r: Self)
        ensures
            r == (SegmentBaseBuilder { timescale: Some(v), ..self }),
    {
        SegmentBaseBuilder { timescale: Some(v), ..self }
    }

    pub fn presentation_time_offset(self, v: u64) -> (r: Self)
        ensures
            r == (SegmentBaseBuilder { presentation_time_offset: Some(v), ..self }),
    {
        SegmentBaseBuilder { presentation_time_offset: Some(v), ..self }
    }

    pub fn ept_delta(self, v: XsInteger) -> (r: Self)
        ensures
            r == (SegmentBaseBuilder { ept_delta: Some(v), ..self }),
    {
        SegmentBaseBuilder { ept_delta: Some(v), ..self }
    }

    pub fn pd_delta(self, v: XsInteger) -> (r: Self)
        ensures
            r == (SegmentBaseBuilder { pd_delta: Some(v), ..self }),
    {
        SegmentBaseBuilder { pd_delta: Some(v), ..self }
    }

    pub fn presentation_duration(self, v: u64) -> (r: Self)
        ensures
            r == (SegmentBaseBuilder { presentation_duration: Some(v), ..self }),
    {
        SegmentBaseBuilder { presentation_duration: Some(v), ..self }
    }

    pub fn time_shift_buffer_depth(self, v: XsDuration) -> (r: Self)
        ensures
            r == (SegmentBaseBuilder { time_shift_buffer_depth: Some(v), ..self }),
    {
        SegmentBaseBuilder { time_shift_buffer_depth: Some(v), ..self }
    }

    pub fn index_range(self, v: SingleByteRange) -> (r: Self)
        ensures
            r == (SegmentBaseBuilder { index_range: Some(v), ..self }),
    {
        SegmentBaseBuilder { index_range: Some(v), ..self }
    }

    pub fn index_range_exact(self, v: bool) -> (r: Self)
        ensures
            r == (SegmentBaseBuilder { index_range_exact: Some(v), ..self }),
    {
        SegmentBaseBuilder { index_range_exact: Some(v), ..self }
    }

    pub fn availability_time_offset(self, v: XsDouble) -> (r: Self)
        ensures
            r == (SegmentBaseBuilder { availability_time_offset: Some(v), ..self }),
    {
        SegmentBaseBuilder { availability_time_offset: Some(v), ..self }
    }

    pub fn availability_time_complete(self, v: bool) -> (r: Self)
        ensures
            r == (SegmentBaseBuilder { availability_time_complete: Some(v), ..self }),
    {
        SegmentBaseBuilder { availability_time_complete: Some(v), ..self }
    }

    pub fn initialization(self, v: Url) -> (r: Self)
        ensures
            r == (SegmentBaseBuilder { initialization: Some(v), ..self }),
    {
        SegmentBaseBuilder { initialization: Some(v), ..self }
    }

    pub fn representation_index(self, v: Url) -> (r: Self)
        ensures
            r == (SegmentBaseBuilder { representation_index: Some(v), ..self }),
    {
        SegmentBaseBuilder { representation_index: Some(v), ..self }
    }

    pub fn failover_content(self, v: FailoverContent) -> (r: Self)
        ensures
            r == (SegmentBaseBuilder { failover_content: Some(v), ..self }),
    {
        SegmentBaseBuilder { failover_content: Some(v), ..self }
    }

    /// Checks the rules and makes the [`SegmentBase`].
    pub fn build(self) -> (r: Result<SegmentBase, MpdError>)
        ensures
            r is Ok,
            r matches Ok(e) ==> e.spec_timescale() == self.timescale,
            r matches Ok(e) ==> e.spec_presentation_time_offset() == self.presentation_time_offset,
            r matches Ok(e) ==> e.spec_ept_delta() == self.ept_delta,
            r matches Ok(e) ==> e.spec_pd_delta() == self.pd_delta,
            r matches Ok(e) ==> e.spec_presentation_duration() == self.presentation_duration,
            r matches Ok(e) ==> e.spec_time_shift_buffer_depth() == self.time_shift_buffer_depth,
            r matches Ok(e) ==> e.spec_index_range() == self.index_range,
            r matches Ok(e) ==> e.spec_index_range_exact() == self.index_range_exact,
            r matches Ok(e) ==> e.spec_availability_time_offset() == self.availability_time_offset,
            r matches Ok(e) ==>
                e.spec_availability_time_complete() == self.availability_time_complete,
            r matches Ok(e) ==> e.spec_initialization() == self.initialization,
            r matches Ok(e) ==> e.spec_representation_index() == self.representation_index,
            r matches Ok(e) ==> e.spec_failover_content() == self.failover_content,
    {
        Ok(SegmentBase {
            timescale: self.timescale,
            presentation_time_offset: self.presentation_time_offset,
            ept_delta: self.ept_delta,
            pd_delta: self.pd_delta,
            presentation_duration: self.presentation_duration,
            time_shift_buffer_depth: self.time_shift_buffer_depth,
            index_range: self.index_range,
            index_range_exact: self.index_range_exact,
            availability_time_offset: self.availability_time_offset,
            availability_time_complete: self.availability_time_complete,
            initialization: self.initialization,
            representation_index: self.representation_index,
            failover_content: self.failover_content,
        })
    }
}

/// Segment list.
#[derive(Debug, Clone, PartialEq, Eq, Default)]
pub struct SegmentList {
    href: Option<String>,
    actuate: Option<String>,
    duration: Option<u32>,
    start_number: Option<u32>,
    end_number: Option<u32>,
    timescale: Option<u32>,
    presentation_time_offset: Option<u64>,
    ept_delta: Option<XsInteger>,
    pd_delta: Option<XsInteger>,
    presentation_duration: Option<u64>,
    time_shift_buffer_depth: Option<XsDuration>,
    index_range: Option<SingleByteRange>,
    index_range_exact: Option<bool>,
    availability_time_offset: Option<XsDouble>,
    availability_time_complete: Option<bool>,
    initialization: Option<Url>,
    representation_index: Option<Url>,
    failover_content: Option<FailoverContent>,
    segment_timeline: Option<SegmentTimeline>,
    bitstream_switching: Option<Url>,
    segment_url: Vec<SegmentUrl>,
}

impl SegmentList {
    pub closed spec fn spec_href(&self) -> Option<String> {
        self.href
    }

    pub closed spec fn spec_actuate(&self) -> Option<String> {
        self.actuate
    }

    pub closed spec fn spec_duration(&self) -> Option<u32> {
        self.duration
    }

    pub closed spec fn spec_start_number(&self) -> Option<u32> {
        self.start_number
    }

    pub closed spec fn spec_end_number(&self) -> Option<u32> {
        self.end_number
    }

    pub closed spec fn spec_timescale(&self) -> Option<u32> {
        self.timescale
    }

    pub closed spec fn spec_presentation_time_offset(&self) -> Option<u64> {
        self.presentation_time_offset
    }

    pub closed spec fn spec_ept_delta(&self) -> Option<XsInteger> {
        self.ept_delta
    }

    pub closed spec fn spec_pd_delta(&self) -> Option<XsInteger> {
        self.pd_delta
    }

    pub closed spec fn spec_presentation_duration(&self) -> Option<u64> {
        self.presentation_duration
    }

    pub closed spec fn spec_time_shift_buffer_depth(&self) -> Option<XsDuration> {
        self.time_shift_buffer_depth
    }

    pub closed spec fn spec_index_range(&self) -> Option<SingleByteRange> {
        self.index_range
    }

    pub closed spec fn spec_index_range_exact(&self) -> Option<bool> {
        self.index_range_exact
    }

    pub closed spec fn spec_availability_time_offset(&self) -> Option<XsDouble> {
        self.availability_time_offset
    }

    pub closed spec fn spec_availability_time_complete(&self) -> Option<bool> {
        self.availability_time_complete
    }

    pub closed spec fn spec_initialization(&self) -> Option<Url> {
        self.initialization
    }

    pub closed spec fn spec_representation_index(&self) -> Option<Url> {
        self.representation_index
    }

    pub closed spec fn spec_failover_content(&self) -> Option<FailoverContent> {
        self.failover_content
    }

    pub closed spec fn spec_segment_timeline(&self) -> Option<SegmentTimeline> {
        self.segment_timeline
    }

    pub closed spec fn spec_bitstream_switching(&self) -> Option<Url> {
        self.bitstream_switching
    }

    pub closed spec fn spec_segment_url(&self) -> Vec<SegmentUrl> {
        self.segment_url
    }

    pub fn href(&self) -> (r: &Option<String>)
        ensures
            *r == self.spec_href(),
    {
        &self.href
    }

    pub fn actuate(&self) -> (r: &Option<String>)
        ensures
            *r == self.spec_actuate(),
    {
        &self.actuate
    }

    pub fn duration(&self) -> (r: &Option<u32>)
        ensures
            *r == self.spec_duration(),
    {
        &self.duration
    }

    pub fn start_number(&self) -> (r: &Option<u32>)
        ensures
            *r == self.spec_start_number(),
    {
        &self.start_number
    }

    pub fn end_number(&self) -> (r: &Option<u32>)
        ensures
            *r == self.spec_end_number(),
    {
        &self.end_number
    }

    pub fn timescale(&self) -> (r: &Option<u32>)
        ensures
            *r == self.spec_timescale(),
    {
        &self.timescale
    }

    pub fn presentation_time_offset(&self) -> (r: &Option<u64>)
        ensures
            *r == self.spec_presentation_time_offset(),
    {
        &self.presentation_time_offset
    }

    pub fn ept_delta(&self) -> (r: &Option<XsInteger>)
        ensures
            *r == self.spec_ept_delta(),
    {
        &self.ept_delta
    }

    pub fn pd_delta(&self) -> (r: &Option<XsInteger>)
        ensures
            *r == self.spec_pd_delta(),
    {
        &self.pd_delta
    }

    pub fn presentation_duration(&self) -> (r: &Option<u64>)
        ensures
            *r == self.spec_presentation_duration(),
    {
        &self.presentation_duration
    }

    pub fn time_shift_buffer_depth(&self) -> (r: &Option<XsDuration>)
        ensures
            *r == self.spec_time_shift_buffer_depth(),
    {
        &self.time_shift_buffer_depth
    }

    pub fn index_range(&self) -> (r: &Option<SingleByteRange>)
        ensures
            *r == self.spec_index_range(),
    {
        &self.index_range
    }

    pub fn index_range_exact(&self) -> (r: &Option<bool>)
        ensures
            *r == self.spec_index_range_exact(),
    {
        &self.index_range_exact
    }

    pub fn availability_time_offset(&self) -> (r: &Option<XsDouble>)
        ensures
            *r == self.spec_availability_time_offset(),
    {
        &self.availability_time_offset
    }

    pub fn availability_time_complete(&self) -> (r: &Option<bool>)
        ensures
            *r == self.spec_availability_time_complete(),
    {
        &self.availability_time_complete
    }

    pub fn initialization(&self) -> (r: &Option<Url>)
        ensures
            *r == self.spec_initialization(),
    {
        &self.initialization
    }

    pub fn representation_index(&self) -> (r: &Option<Url>)
        ensures
            *r == self.spec_representation_index(),
    {
        &self.representation_index
    }

    pub fn failover_content(&self) -> (r: &Option<FailoverContent>)
        ensures
            *r == self.spec_failover_content(),
    {
        &self.failover_content
    }

    pub fn segment_timeline(&self) -> (r: &Option<SegmentTimeline>)
        ensures
            *r == self.spec_segment_timeline(),
    {
        &self.segment_timeline
    }

    pub fn bitstream_switching(&self) -> (r: &Option<Url>)
        ensures
            *r == self.spec_bitstream_switching(),
    {
        &self.bitstream_switching
    }

    pub fn segment_url(&self) -> (r: &Vec<SegmentUrl>)
        ensures
            *r == self.spec_segment_url(),
    {
        &self.segment_url
    }
}

/// Accumulates the fields of a [`SegmentList`]; [`SegmentListBuilder::build`] checks them.
#[derive(Debug, Default, Clone)]
pub struct SegmentListBuilder {
    pub href: Option<String>,
    pub actuate: Option<String>,
    pub duration: Option<u32>,
    pub start_number: Option<u32>,
    pub end_number: Option<u32>,
    pub timescale: Option<u32>,
    pub presentation_time_offset: Option<u64>,
    pub ept_delta: Option<XsInteger>,
    pub pd_delta: Option<XsInteger>,
    pub presentation_duration: Option<u64>,
    pub time_shift_buffer_depth: Option<XsDuration>,
    pub index_range: Option<SingleByteRange>,
    pub index_range_exact: Option<bool>,
    pub availability_time_offset: Option<XsDouble>,
    pub availability_time_complete: Option<bool>,
    pub initialization: Option<Url>,
    pub representation_index: Option<Url>,
    pub failover_content: Option<FailoverContent>,
    pub segment_timeline: Option<SegmentTimeline>,
    pub bitstream_switching: Option<Url>,
    pub segment_url: Option<Vec<SegmentUrl>>,
}

impl SegmentListBuilder {
    pub fn href(self, v: &str) -> (r: Self)
        ensures
            (r.href matches Some(x) && x@ == v@),
            r == (SegmentListBuilder { href: r.href, ..self }),
    {
        SegmentListBuilder { href: Some(v.to_owned()), ..self }
    }

    pub fn actuate(self, v: &str) -> (r: Self)
        ensures
            (r.actuate matches Some(x) && x@ == v@),
            r == (SegmentListBuilder { actuate: r.actuate, ..self }),
    {
        SegmentListBuilder { actuate: Some(v.to_owned()), ..self }
    }

    pub fn duration(self, v: u32) -> (r: Self)
        ensures
            r == (SegmentListBuilder { duration: Some(v), ..self }),
    {
        SegmentListBuilder { duration: Some(v), ..self }
    }

    pub fn start_number(self, v: u32) -> (r: Self)
        ensures
            r == (SegmentListBuilder { start_number: Some(v), ..self }),
    {
        SegmentListBuilder { start_number: Some(v), ..self }
    }

    pub fn end_number(self, v: u32) -> (r: Self)
        ensures
            r == (SegmentListBuilder { end_number: Some(v), ..self }),
    {
        SegmentListBuilder { end_number: Some(v), ..self }
    }

    pub fn timescale(self, v: u32) -> (r: Self)
        ensures
            r == (SegmentListBuilder { timescale: Some(v), ..self }),
    {
        SegmentListBuilder { timescale: Some(v), ..self }
    }

    pub fn presentation_time_offset(self, v: u64) -> (r: Self)
        ensures
            r == (SegmentListBuilder { presentation_time_offset: Some(v), ..self }),
    {
        SegmentListBuilder { presentation_time_offset: Some(v), ..self }
    }

    pub fn ept_delta(self, v: XsInteger) -> (r: Self)
        ensures
            r == (SegmentListBuilder { ept_delta: Some(v), ..self }),
    {
        SegmentListBuilder { ept_delta: Some(v), ..self }
    }

    pub fn pd_delta(self, v: XsInteger) -> (r: Self)
        ensures
            r == (SegmentListBuilder { pd_delta: Some(v), ..self }),
    {
        SegmentListBuilder { pd_delta: Some(v), ..self }
    }

    pub fn presentation_duration(self, v: u64) -> (r: Self)
        ensures
            r == (SegmentListBuilder { presentation_duration: Some(v), ..self }),
    {
        SegmentListBuilder { presentation_duration: Some(v), ..self }
    }

    pub fn time_shift_buffer_depth(self, v: XsDuration) -> (r: Self)
        ensures
            r == (SegmentListBuilder { time_shift_buffer_depth: Some(v), ..self }),
    {
        SegmentListBuilder { time_shift_buffer_depth: Some(v), ..self }
    }

    pub fn index_range(self, v: SingleByteRange) -> (r: Self)
        ensures
            r == (SegmentListBuilder { index_range: Some(v), ..self }),
    {
        SegmentListBuilder { index_range: Some(v), ..self }
    }

    pub fn index_range_exact(self, v: bool) -> (r: Self)
        ensures
            r == (SegmentListBuilder { index_range_exact: Some(v), ..self }),
    {
        SegmentListBuilder { index_range_exact: Some(v), ..self }
    }

    pub fn availability_time_offset(self, v: XsDouble) -> (r: Self)
        ensures
            r == (SegmentListBuilder { availability_time_offset: Some(v), ..self }),
    {
        SegmentListBuilder { availability_time_offset: Some(v), ..self }
    }

    pub fn availability_time_complete(self, v: bool) -> (r: Self)
        ensures
            r == (SegmentListBuilder { availability_time_complete: Some(v), ..self }),
    {
        SegmentListBuilder { availability_time_complete: Some(v), ..self }
    }

    pub fn initialization(self, v: Url) -> (r: Self)
        ensures
            r == (SegmentListBuilder { initialization: Some(v), ..self }),
    {
        SegmentListBuilder { initialization: Some(v), ..self }
    }

    pub fn representation_index(self, v: Url) -> (r: Self)
        ensures
            r == (SegmentListBuilder { representation_index: Some(v), ..self }),
    {
        SegmentListBuilder { representation_index: Some(v), ..self }
    }

    pub fn failover_content(self, v: FailoverContent) -> (r: Self)
        ensures
            r == (SegmentListBuilder { failover_content: Some(v), ..self }),
    {
        SegmentListBuilder { failover_content: Some(v), ..self }
    }

    pub fn segment_timeline(self, v: SegmentTimeline) -> (r: Self)
        ensures
            r == (SegmentListBuilder { segment_timeline: Some(v), ..self }),
    {
        SegmentListBuilder { segment_timeline: Some(v), ..self }
    }

    pub fn bitstream_switching(self, v: Url) -> (r: Self)
        ensures
            r == (SegmentListBuilder { bitstream_switching: Some(v), ..self }),
    {
        SegmentListBuilder { bitstream_switching: Some(v), ..self }
    }

    pub fn segment_url(self, v: Vec<SegmentUrl>) -> (r: Self)
        ensures
            r == (SegmentListBuilder { segment_url: Some(v), ..self }),
    {
        SegmentListBuilder { segment_url: Some(v), ..self }
    }

    /// Checks the rules and makes the [`SegmentList`].
    pub fn build(self) -> (r: Result<SegmentList, MpdError>)
        ensures
            r is Ok,
            r matches Ok(e) ==> e.spec_href() == self.href,
            r matches Ok(e) ==> e.spec_actuate() == self.actuate,
            r matches Ok(e) ==> e.spec_duration() == self.duration,
            r matches Ok(e) ==> e.spec_start_number() == self.start_number,
            r matches Ok(e) ==> e.spec_end_number() == self.end_number,
            r matches Ok(e) ==> e.spec_timescale() == self.timescale,
            r matches Ok(e) ==> e.spec_presentation_time_offset() == self.presentation_time_offset,
            r matches Ok(e) ==> e.spec_ept_delta() == self.ept_delta,
            r matches Ok(e) ==> e.spec_pd_delta() == self.pd_delta,
            r matches Ok(e) ==> e.spec_presentation_duration() == self.presentation_duration,
            r matches Ok(e) ==> e.spec_time_shift_buffer_depth() == self.time_shift_buffer_depth,
            r matches Ok(e) ==> e.spec_index_range() == self.index_range,
            r matches Ok(e) ==> e.spec_index_range_exact() == self.index_range_exact,
            r matches Ok(e) ==> e.spec_availability_time_offset() == self.availability_time_offset,
            r matches Ok(e) ==>
                e.spec_availability_time_complete() == self.availability_time_complete,
            r matches Ok(e) ==> e.spec_initialization() == self.initialization,
            r matches Ok(e) ==> e.spec_representation_index() == self.representation_index,
            r matches Ok(e) ==> e.spec_failover_content() == self.failover_content,
            r matches Ok(e) ==> e.spec_segment_timeline() == self.segment_timeline,
            r matches Ok(e) ==> e.spec_bitstream_switching() == self.bitstream_switching,
            r matches Ok(e) ==>
                (self.segment_url is Some ==> self.segment_url == Some(e.spec_segment_url())),
            r matches Ok(e) ==> (self.segment_url is None ==> e.spec_segment_url()@.len() == 0),
    {
        let segment_url = match self.segment_url {
            Some(v) => v,
            None => Vec::new(),
        };
        Ok(SegmentList {
            href: self.href,
            actuate: self.actuate,
            duration: self.duration,
            start_number: self.start_number,
            end_number: self.end_number,
            timescale: self.timescale,
            presentation_time_offset: self.presentation_time_offset,
            ept_delta: self.ept_delta,
            pd_delta: self.pd_delta,
            presentation_duration: self.presentation_duration,
            time_shift_buffer_depth: self.time_shift_buffer_depth,
            index_range: self.index_range,
            index_range_exact: self.index_range_exact,
            availability_time_offset: self.availability_time_offset,
            availability_time_complete: self.availability_time_complete,
            initialization: self.initialization,
            representation_index: self.representation_index,
            failover_content: self.failover_content,
            segment_timeline: self.segment_timeline,
            bitstream_switching: self.bitstream_switching,
            segment_url,
        })
    }
}

/// Segment template.
#[derive(Debug, Clone, PartialEq, Eq, Default)]
pub struct SegmentTemplate {
    duration: Option<u32>,
    start_number: Option<u32>,
    end_number: Option<u32>,
    timescale: Option<u32>,
    presentation_time_offset: Option<u64>,
    ept_delta: Option<XsInteger>,
    pd_delta: Option<XsInteger>,
    presentation_duration: Option<u64>,
    time_shift_buffer_depth: Option<XsDuration>,
    index_range: Option<SingleByteRange>,
    index_range_exact: Option<bool>,
    availability_time_offset: Option<XsDouble>,
    availability_time_complete: Option<bool>,
    initialization_element: Option<Url>,
    representation_index: Option<Url>,
    failover_content: Option<FailoverContent>,
    segment_timeline: Option<SegmentTimeline>,
    bitstream_switching_element: Option<Url>,
    media: Option<String>,
    index: Option<String>,
    initialization_attribute: Option<String>,
    bitstream_switching_attribute: Option<String>,
}

impl SegmentTemplate {
    pub closed spec fn spec_duration(&self) -> Option<u32> {
        self.duration
    }

    pub closed spec fn spec_start_number(&self) -> Option<u32> {
        self.start_number
    }

    pub closed spec fn spec_end_number(&self) -> Option<u32> {
        self.end_number
    }

    pub closed spec fn spec_timescale(&self) -> Option<u32> {
        self.timescale
    }

    pub closed spec fn spec_presentation_time_offset(&self) -> Option<u64> {
        self.presentation_time_offset
    }

    pub closed spec fn spec_ept_delta(&self) -> Option<XsInteger> {
        self.ept_delta
    }

    pub closed spec fn spec_pd_delta(&self) -> Option<XsInteger> {
        self.pd_delta
    }

    pub closed spec fn spec_presentation_duration(&self) -> Option<u64> {
        self.presentation_duration
    }

    pub closed spec fn spec_time_shift_buffer_depth(&self) -> Option<XsDuration> {
        self.time_shift_buffer_depth
    }

    pub closed spec fn spec_index_range(&self) -> Option<SingleByteRange> {
        self.index_range
    }

    pub closed spec fn spec_index_range_exact(&self) -> Option<bool> {
        self.index_range_exact
    }

    pub closed spec fn spec_availability_time_offset(&self) -> Option<XsDouble> {
        self.availability_time_offset
    }

    pub closed spec fn spec_availability_time_complete(&self) -> Option<bool> {
        self.availability_time_complete
    }

    pub closed spec fn spec_initialization_element(&self) -> Option<Url> {
        self.initialization_element
    }

    pub closed spec fn spec_representation_index(&self) -> Option<Url> {
        self.representation_index
    }

    pub closed spec fn spec_failover_content(&self) -> Option<FailoverContent> {
        self.failover_content
    }

    pub closed spec fn spec_segment_timeline(&self) -> Option<SegmentTimeline> {
        self.segment_timeline
    }

    pub closed spec fn spec_bitstream_switching_element(&self) -> Option<Url> {
        self.bitstream_switching_element
    }

    pub closed spec fn spec_media(&self) -> Option<String> {
        self.media
    }

    pub closed spec fn spec_index(&self) -> Option<String> {
        self.index
    }

    pub closed spec fn spec_initialization_attribute(&self) -> Option<String> {
        self.initialization_attribute
    }

    pub closed spec fn spec_bitstream_switching_attribute(&self) -> Option<String> {
        self.bitstream_switching_attribute
    }

    pub fn duration(&self) -> (r: &Option<u32>)
        ensures
            *r == self.spec_duration(),
    {
        &self.duration
    }

    pub fn start_number(&self) -> (r: &Option<u32>)
        ensures
            *r == self.spec_start_number(),
    {
        &self.start_number
    }

    pub fn end_number(&self) -> (r: &Option<u32>)
        ensures
            *r == self.spec_end_number(),
    {
        &self.end_number
    }

    pub fn timescale(&self) -> (r: &Option<u32>)
        ensures
            *r == self.spec_timescale(),
    {
        &self.timescale
    }

    pub fn presentation_time_offset(&self) -> (r: &Option<u64>)
        ensures
            *r == self.spec_presentation_time_offset(),
    {
        &self.presentation_time_offset
    }

    pub fn ept_delta(&self) -> (r: &Option<XsInteger>)
        ensures
            *r == self.spec_ept_delta(),
    {
        &self.ept_delta
    }

    pub fn pd_delta(&self) -> (r: &Option<XsInteger>)
        ensures
            *r == self.spec_pd_delta(),
    {
        &self.pd_delta
    }

    pub fn presentation_duration(&self) -> (r: &Option<u64>)
        ensures
            *r == self.spec_presentation_duration(),
    {
        &self.presentation_duration
    }

    pub fn time_shift_buffer_depth(&self) -> (r: &Option<XsDuration>)
        ensures
            *r == self.spec_time_shift_buffer_depth(),
    {
        &self.time_shift_buffer_depth
    }

    pub fn index_range(&self) -> (r: &Option<SingleByteRange>)
        ensures
            *r == self.spec_index_range(),
    {
        &self.index_range
    }

    pub fn index_range_exact(&self) -> (r: &Option<bool>)
        ensures
            *r == self.spec_index_range_exact(),
    {
        &self.index_range_exact
    }

    pub fn availability_time_offset(&self) -> (r: &Option<XsDouble>)
        ensures
            *r == self.spec_availability_time_offset(),
    {
        &self.availability_time_offset
    }

    pub fn availability_time_complete(&self) -> (r: &Option<bool>)
        ensures
            *r == self.spec_availability_time_complete(),
    {
        &self.availability_time_complete
    }

    pub fn initialization_element(&self) -> (r: &Option<Url>)
        ensures
            *r == self.spec_initialization_element(),
    {
        &self.initialization_element
    }

    pub fn representation_index(&self) -> (r: &Option<Url>)
        ensures
            *r == self.spec_representation_index(),
    {
        &self.representation_index
    }

    pub fn failover_content(&self) -> (r: &Option<FailoverContent>)
        ensures
            *r == self.spec_failover_content(),
    {
        &self.failover_content
    }

    pub fn segment_timeline(&self) -> (r: &Option<SegmentTimeline>)
        ensures
            *r == self.spec_segment_timeline(),
    {
        &self.segment_timeline
    }

    pub fn bitstream_switching_element(&self) -> (r: &Option<Url>)
        ensures
            *r == self.spec_bitstream_switching_element(),
    {
        &self.bitstream_switching_element
    }

    pub fn media(&self) -> (r: &Option<String>)
        ensures
            *r == self.spec_media(),
    {
        &self.media
    }

    pub fn index(&self) -> (r: &Option<String>)
        ensures
            *r == self.spec_index(),
    {
        &self.index
    }

    pub fn initialization_attribute(&self) -> (r: &Option<String>)
        ensures
            *r == self.spec_initialization_attribute(),
    {
        &self.initialization_attribute
    }

    pub fn bitstream_switching_attribute(&self) -> (r: &Option<String>)
        ensures
            *r == self.spec_bitstream_switching_attribute(),
    {
        &self.bitstream_switching_attribute
    }
}

/// Accumulates the fields of a [`SegmentTemplate`]; [`SegmentTemplateBuilder::build`] checks them.
#[derive(Debug, Default, Clone)]
pub struct SegmentTemplateBuilder {
    pub duration: Option<u32>,
    pub start_number: Option<u32>,
    pub end_number: Option<u32>,
    pub timescale: Option<u32>,
    pub presentation_time_offset: Option<u64>,
    pub ept_delta: Option<XsInteger>,
    pub pd_delta: Option<XsInteger>,
    pub presentation_duration: Option<u64>,
    pub time_shift_buffer_depth: Option<XsDuration>,
    pub index_range: Option<SingleByteRange>,
    pub index_range_exact: Option<bool>,
    pub availability_time_offset: Option<XsDouble>,
    pub availability_time_complete: Option<bool>,
    pub initialization_element: Option<Url>,
    pub representation_index: Option<Url>,
    pub failover_content: Option<FailoverContent>,
    pub segment_timeline: Option<SegmentTimeline>,
    pub bitstream_switching_element: Option<Url>,
    pub media: Option<String>,
    pub index: Option<String>,
    pub initialization_attribute: Option<String>,
    pub bitstream_switching_attribute: Option<String>,
}

impl SegmentTemplateBuilder {
    pub fn duration(self, v: u32) -> (r: Self)
        ensures
            r == (SegmentTemplateBuilder { duration: Some(v), ..self }),
    {
        SegmentTemplateBuilder { duration: Some(v), ..self }
    }

    pub fn start_number(self, v: u32) -> (r: Self)
        ensures
            r == (SegmentTemplateBuilder { start_number: Some(v), ..self }),
    {
        SegmentTemplateBuilder { start_number: Some(v), ..self }
    }

    pub fn end_number(self, v: u32) -> (r: Self)
        ensures
            r == (SegmentTemplateBuilder { end_number: Some(v), ..self }),
    {
        SegmentTemplateBuilder { end_number: Some(v), ..self }
    }

    pub fn timescale(self, v: u32) -> (r: Self)
        ensures
            r == (SegmentTemplateBuilder { timescale: Some(v), ..self }),
    {
        SegmentTemplateBuilder { timescale: Some(v), ..self }
    }

    pub fn presentation_time_offset(self, v: u64) -> (r: Self)
        ensures
            r == (SegmentTemplateBuilder { presentation_time_offset: Some(v), ..self }),
    {
        SegmentTemplateBuilder { presentation_time_offset: Some(v), ..self }
    }

    pub fn ept_delta(self, v: XsInteger) -> (r: Self)
        ensures
            r == (SegmentTemplateBuilder { ept_delta: Some(v), ..self }),
    {
        SegmentTemplateBuilder { ept_delta: Some(v), ..self }
    }

    pub fn pd_delta(self, v: XsInteger) -> (r: Self)
        ensures
            r == (SegmentTemplateBuilder { pd_delta: Some(v), ..self }),
    {
        SegmentTemplateBuilder { pd_delta: Some(v), ..self }
    }

    pub fn presentation_duration(self, v: u64) -> (r: Self)
        ensures
            r == (SegmentTemplateBuilder { presentation_duration: Some(v), ..self }),
    {
        SegmentTemplateBuilder { presentation_duration: Some(v), ..self }
    }

    pub fn time_shift_buffer_depth(self, v: XsDuration) -> (r: Self)
        ensures
            r == (SegmentTemplateBuilder { time_shift_buffer_depth: Some(v), ..self }),
    {
        SegmentTemplateBuilder { time_shift_buffer_depth: Some(v), ..self }
    }

    pub fn index_range(self, v: SingleByteRange) -> (r: Self)
        ensures
            r == (SegmentTemplateBuilder { index_range: Some(v), ..self }),
    {
        SegmentTemplateBuilder { index_range: Some(v), ..self }
    }

    pub fn index_range_exact(self, v: bool) -> (r: Self)
        ensures
            r == (SegmentTemplateBuilder { index_range_exact: Some(v), ..self }),
    {
        SegmentTemplateBuilder { index_range_exact: Some(v), ..self }
    }

    pub fn availability_time_offset(self, v: XsDouble) -> (r: Self)
        ensures
            r == (SegmentTemplateBuilder { availability_time_offset: Some(v), ..self }),
    {
        SegmentTemplateBuilder { availability_time_offset: Some(v), ..self }
    }

    pub fn availability_time_complete(self, v: bool) -> (r: Self)
        ensures
            r == (SegmentTemplateBuilder { availability_time_complete: Some(v), ..self }),
    {
        SegmentTemplateBuilder { availability_time_complete: Some(v), ..self }
    }

    pub fn initialization_element(self, v: Url) -> (r: Self)
        ensures
            r == (SegmentTemplateBuilder { initialization_element: Some(v), ..self }),
    {
        SegmentTemplateBuilder { initialization_element: Some(v), ..self }
    }

    pub fn representation_index(self, v: Url) -> (r: Self)
        ensures
            r == (SegmentTemplateBuilder { representation_index: Some(v), ..self }),
    {
        SegmentTemplateBuilder { representation_index: Some(v), ..self }
    }

    pub fn failover_content(self, v: FailoverContent) -> (r: Self)
        ensures
            r == (SegmentTemplateBuilder { failover_content: Some(v), ..self }),
    {
        SegmentTemplateBuilder { failover_content: Some(v), ..self }
    }

    pub fn segment_timeline(self, v: SegmentTimeline) -> (r: Self)
        ensures
            r == (SegmentTemplateBuilder { segment_timeline: Some(v), ..self }),
    {
        SegmentTemplateBuilder { segment_timeline: Some(v), ..self }
    }

    pub fn bitstream_switching_element(self, v: Url) -> (r: Self)
        ensures
            r == (SegmentTemplateBuilder { bitstream_switching_element: Some(v), ..self }),
    {
        SegmentTemplateBuilder { bitstream_switching_element: Some(v), ..self }
    }

    pub fn media(self, v: &str) -> (r: Self)
        ensures
            (r.media matches Some(x) && x@ == v@),
            r == (SegmentTemplateBuilder { media: r.media, ..self }),
    {
        SegmentTemplateBuilder { media: Some(v.to_owned()), ..self }
    }

    pub fn index(self, v: &str) -> (r: Self)
        ensures
            (r.index matches Some(x) && x@ == v@),
            r == (SegmentTemplateBuilder { index: r.index, ..self }),
    {
        SegmentTemplateBuilder { index: Some(v.to_owned()), ..self }
    }

    pub fn initialization_attribute(self, v: &str) -> (r: Self)
        ensures
            (r.initialization_attribute matches Some(x) && x@ == v@),
            r == (SegmentTemplateBuilder { initialization_attribute: r.initialization_attribute, ..self }),
    {
        SegmentTemplateBuilder { initialization_attribute: Some(v.to_owned()), ..self }
    }

    pub fn bitstream_switching_attribute(self, v: &str) -> (r: Self)
        ensures
            (r.bitstream_switching_attribute matches Some(x) && x@ == v@),
            r == (SegmentTemplateBuilder { bitstream_switching_attribute: r.bitstream_switching_attribute, ..self }),
    {
        SegmentTemplateBuilder { bitstream_switching_attribute: Some(v.to_owned()), ..self }
    }

    /// Checks the rules and makes the [`SegmentTemplate`].
    pub fn build(self) -> (r: Result<SegmentTemplate, MpdError>)
        ensures
            r is Ok,
            r matches Ok(e) ==> e.spec_duration() == self.duration,
            r matches Ok(e) ==> e.spec_start_number() == self.start_number,
            r matches Ok(e) ==> e.spec_end_number() == self.end_number,
            r matches Ok(e) ==> e.spec_timescale() == self.timescale,
            r matches Ok(e) ==> e.spec_presentation_time_offset() == self.presentation_time_offset,
            r matches Ok(e) ==> e.spec_ept_delta() == self.ept_delta,
            r matches Ok(e) ==> e.spec_pd_delta() == self.pd_delta,
            r matches Ok(e) ==> e.spec_presentation_duration() == self.presentation_duration,
            r matches Ok(e) ==> e.spec_time_shift_buffer_depth() == self.time_shift_buffer_depth,
            r matches Ok(e) ==> e.spec_index_range() == self.index_range,
            r matches Ok(e) ==> e.spec_index_range_exact() == self.index_range_exact,
            r matches Ok(e) ==> e.spec_availability_time_offset() == self.availability_time_offset,
            r matches Ok(e) ==>
                e.spec_availability_time_complete() == self.availability_time_complete,
            r matches Ok(e) ==> e.spec_initialization_element() == self.initialization_element,
            r matches Ok(e) ==> e.spec_representation_index() == self.representation_index,
            r matches Ok(e) ==> e.spec_failover_content() == self.failover_content,
            r matches Ok(e) ==> e.spec_segment_timeline() == self.segment_timeline,
            r matches Ok(e) ==>
                e.spec_bitstream_switching_element() == self.bitstream_switching_element,
            r matches Ok(e) ==> e.spec_media() == self.media,
            r matches Ok(e) ==> e.spec_index() == self.index,
            r matches Ok(e) ==> e.spec_initialization_attribute() == self.initialization_attribute,
            r matches Ok(e) ==>
                e.spec_bitstream_switching_attribute() == self.bitstream_switching_attribute,
    {
        Ok(SegmentTemplate {
            duration: self.duration,
            start_number: self.start_number,
            end_number: self.end_number,
            timescale: self.timescale,
            presentation_time_offset: self.presentation_time_offset,
            ept_delta: self.ept_delta,
            pd_delta: self.pd_delta,
            presentation_duration: self.presentation_duration,
            time_shift_buffer_depth: self.time_shift_buffer_depth,
            index_range: self.index_range,
            index_range_exact: self.index_range_exact,
            availability_time_offset: self.availability_time_offset,
            availability_time_complete: self.availability_time_complete,
            initialization_element: self.initialization_element,
            representation_index: self.representation_index,
            failover_content: self.failover_content,
            segment_timeline: self.segment_timeline,
            bitstream_switching_element: self.bitstream_switching_element,
            media: self.media,
            index: self.index,
            initialization_attribute: self.initialization_attribute,
            bitstream_switching_attribute: self.bitstream_switching_attribute,
        })
    }
}

/// Segment timeline: the segments in order.
#[derive(Debug, Clone, PartialEq, Eq, Default)]
pub struct SegmentTimeline {
    segments: Vec<Segment>,
}

impl SegmentTimeline {
    pub closed spec fn spec_segments(&self) -> Vec<Segment> {
        self.segments
    }

    pub fn segments(&self) -> (r: &Vec<Segment>)
        ensures
            *r == self.spec_segments(),
    {
        &self.segments
    }
}

/// Accumulates the fields of a [`SegmentTimeline`]; [`SegmentTimelineBuilder::build`] checks them.
#[derive(Debug, Default, Clone)]
pub struct SegmentTimelineBuilder {
    pub segments: Option<Vec<Segment>>,
}

impl SegmentTimelineBuilder {
    /// Appends one segment.
    pub fn segment(self, segment: Segment) -> (r: Self)
        ensures
            (r.segments matches Some(v) && v@ == (match self.segments {
                Some(old) => old@,
                None => Seq::empty(),
            }).push(segment)),
    {
        let mut v = match self.segments {
            Some(v) => v,
            None => Vec::new(),
        };
        v.push(segment);
        SegmentTimelineBuilder { segments: Some(v) }
    }

    /// Appends the segments, in order.
    pub fn segments(self, segments: Vec<Segment>) -> (r: Self)
        ensures
            (r.segments matches Some(v) && v@ == (match self.segments {
                Some(old) => old@,
                None => Seq::empty(),
            }) + segments@),
    {
        let mut v = match self.segments {
            Some(v) => v,
            None => Vec::new(),
        };
        let mut more = segments;
        v.append(&mut more);
        SegmentTimelineBuilder { segments: Some(v) }
    }

    /// Checks the rules and makes the [`SegmentTimeline`].
    pub fn build(self) -> (r: Result<SegmentTimeline, MpdError>)
        ensures
            r is Ok,
            r matches Ok(e) ==>
                (self.segments is Some ==> self.segments == Some(e.spec_segments())),
            r matches Ok(e) ==> (self.segments is None ==> e.spec_segments()@.len() == 0),
    {
        let segments = match self.segments {
            Some(v) => v,
            None => Vec::new(),
        };
        Ok(SegmentTimeline {
            segments,
        })
    }
}

/// One entry of a segment timeline.
///
/// Built only through [`SegmentBuilder`], which checks its rules.
#[derive(Debug, Clone, PartialEq, Eq)]
pub struct Segment {
    start_time: Option<u64>,
    number: Option<u64>,
    duration: u64,
    segment_count: Option<u64>,
    repeat_count: Option<XsInteger>,
}

impl Segment {
    pub closed spec fn spec_start_time(&self) -> Option<u64> {
        self.start_time
    }

    pub closed spec fn spec_number(&self) -> Option<u64> {
        self.number
    }

    pub closed spec fn spec_duration(&self) -> u64 {
        self.duration
    }

    pub closed spec fn spec_segment_count(&self) -> Option<u64> {
        self.segment_count
    }

    pub closed spec fn spec_repeat_count(&self) -> Option<XsInteger> {
        self.repeat_count
    }

    pub fn start_time(&self) -> (r: &Option<u64>)
        ensures
            *r == self.spec_start_time(),
    {
        &self.start_time
    }

    pub fn number(&self) -> (r: &Option<u64>)
        ensures
            *r == self.spec_number(),
    {
        &self.number
    }

    pub fn duration(&self) -> (r: &u64)
        ensures
            *r == self.spec_duration(),
    {
        &self.duration
    }

    pub fn segment_count(&self) -> (r: &Option<u64>)
        ensures
            *r == self.spec_segment_count(),
    {
        &self.segment_count
    }

    pub fn repeat_count(&self) -> (r: &Option<XsInteger>)
        ensures
            *r == self.spec_repeat_count(),
    {
        &self.repeat_count
    }
}

/// Accumulates the fields of a [`Segment`]; [`SegmentBuilder::build`] checks them.
#[derive(Debug, Default, Clone)]
pub struct SegmentBuilder {
    pub start_time: Option<u64>,
    pub number: Option<u64>,
    pub duration: Option<u64>,
    pub segment_count: Option<u64>,
    pub repeat_count: Option<XsInteger>,
}

impl SegmentBuilder {
    /// Whether the fields meet the rules of a [`Segment`].
    pub open spec fn meets_rules(&self) -> bool {
        self.first_broken_rule() is None
    }

    pub fn start_time(self, v: u64) -> (r: Self)
        ensures
            r == (SegmentBuilder { start_time: Some(v), ..self }),
    {
        SegmentBuilder { start_time: Some(v), ..self }
    }

    pub fn number(self, v: u64) -> (r: Self)
        ensures
            r == (SegmentBuilder { number: Some(v), ..self }),
    {
        SegmentBuilder { number: Some(v), ..self }
    }

    pub fn duration(self, v: u64) -> (r: Self)
        ensures
            r == (SegmentBuilder { duration: Some(v), ..self }),
    {
        SegmentBuilder { duration: Some(v), ..self }
    }

    pub fn segment_count(self, v: u64) -> (r: Self)
        ensures
            r == (SegmentBuilder { segment_count: Some(v), ..self }),
    {
        SegmentBuilder { segment_count: Some(v), ..self }
    }

    pub fn repeat_count(self, v: XsInteger) -> (r: Self)
        ensures
            r == (SegmentBuilder { repeat_count: Some(v), ..self }),
    {
        SegmentBuilder { repeat_count: Some(v), ..self }
    }

    /// Checks the rules and makes the [`Segment`].
    pub fn build(self) -> (r: Result<Segment, MpdError>)
        ensures
            r is Ok <==> self.meets_rules(),
            self.first_broken_rule() matches Some(e) ==> r == Err::<Segment, MpdError>(e),
            r matches Ok(e) ==> e.spec_start_time() == self.start_time,
            r matches Ok(e) ==> e.spec_number() == self.number,
            r matches Ok(e) ==> self.duration == Some(e.spec_duration()),
            r matches Ok(e) ==> e.spec_segment_count() == self.segment_count,
            r matches Ok(e) ==> e.spec_repeat_count() == self.repeat_count,
    {
        if let Err(e) = self.validate() {
            return Err(e);
        }
        let duration = match self.duration {
            Some(v) => v,
            None => return Err(MpdError::MissingRequiredField("duration")),
        };
        Ok(Segment {
            start_time: self.start_time,
            number: self.number,
            duration,
            segment_count: self.segment_count,
            repeat_count: self.repeat_count,
        })
    }
}

impl NeedValidater for SegmentBuilder {
    open spec fn first_broken_rule(&self) -> Option<MpdError> {
        if self.duration is None {
            Some(MpdError::MissingRequiredField("duration"))
        } else if self.duration == Some(0u64) {
            Some(MpdError::OutOfRange("duration"))
        } else {
            None
        }
    }

    fn validate(&self) -> (r: Result<(), MpdError>) {
        if self.duration.is_none() {
            return Err(MpdError::MissingRequiredField("duration"));
        }
        if match self.duration { Some(d) => d == 0, None => false } {
            return Err(MpdError::OutOfRange("duration"));
        }
        Ok(())
    }
}

} // verus!
