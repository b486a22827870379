use vstd::prelude::*;
use vstd::utf8::{decode_utf8, valid_utf8};

use crate::codec::{parse_all_error, TextValue};
use crate::codecs::{
    codecs_parse, codecs_text, codecs_wf, fancy_parse, fancy_text, fancy_wf,
    lemma_codecs_round_trip, lemma_fancy_round_trip, lemma_simp_round_trip, simp_parse, simp_wf,
    Codecs, CodecsModel, FancyList, FancyModel, SimpList,
};
use crate::definition::{
    lemma_profiles_round_trip, profiles_parse, profiles_wf, Identifier, ListOfProfiles,
    PeriodSignalling, Profile,
};
use crate::duration::{
    duration_parse, duration_text, duration_wf, lemma_duration_round_trip, XsDuration,
};
use crate::error::MpdError;
use crate::integer::{integer_parse, integer_text, lemma_integer_round_trip, XsInteger};
use crate::lists::{
    comma_list_error, comma_list_parse, comma_list_text, comma_list_wf, sampling_rate_error, lemma_comma_list_round_trip,
    CommaSeparatedList, lemma_sampling_rate_round_trip, lemma_ws_list_round_trip, sampling_rate_parse,
    ws_list_parse, ws_list_text, ws_list_wf, AudioSamplingRate, WhitespaceSeparatedList,
};
use crate::patterns::{all_solid, is_language, is_nc_name};
use crate::ratio::{
    framerate_error, framerate_parse, framerate_text, framerate_wf, lemma_framerate_round_trip,
    lemma_ratio_round_trip, ratio_error, ratio_parse, ratio_text, ratio_wf, FrameRate, Ratio,
};
use crate::text::{dec, join, split, ws_tokens};
use crate::types::{
    byte_range_error, byte_range_parse, byte_range_text, byte_range_wf, fourcc_parse, fourcc_text,
    lemma_byte_range_round_trip, lemma_fourcc_round_trip, lemma_sap_round_trip,
    lemma_xs_id_round_trip, lemma_xs_language_round_trip, no_whitespace_parse, sap_error, sap_parse,
    xs_id_parse, xs_language_parse, FourCC, NoWhitespace, SingleByteRange, StreamAccessPoint,
    Tag, XsAnyURI, XsId, XsLanguage, XsDouble, double_parse, is_double_text,
};

verus! {

impl TextValue for XsAnyURI {
    type Model = Seq<char>;

    open spec fn model(&self) -> Seq<char> {
        self.view()
    }

    open spec fn wf_model(m: Seq<char>) -> bool {
        true
    }

    open spec fn text_of(m: Seq<char>) -> Seq<char> {
        m
    }

    open spec fn parse_of(s: Seq<char>) -> Option<Seq<char>> {
        Some(s)
    }

    open spec fn parse_error(s: Seq<char>) -> MpdError {
        MpdError::UnmatchedPattern
    }

    fn parse_text(s: &str) -> (r: Result<XsAnyURI, MpdError>) {
        XsAnyURI::from_str(s)
    }

    fn format_text(&self) -> (r: String) {
        self.to_string()
    }

    proof fn lemma_round_trip(m: Seq<char>) {
    }
}

impl TextValue for Tag {
    type Model = Seq<char>;

    open spec fn model(&self) -> Seq<char> {
        self.view()
    }

    open spec fn wf_model(m: Seq<char>) -> bool {
        true
    }

    open spec fn text_of(m: Seq<char>) -> Seq<char> {
        m
    }

    open spec fn parse_of(s: Seq<char>) -> Option<Seq<char>> {
        Some(s)
    }

    open spec fn parse_error(s: Seq<char>) -> MpdError {
        MpdError::UnmatchedPattern
    }

    fn parse_text(s: &str) -> (r: Result<Tag, MpdError>) {
        Tag::from_str(s)
    }

    fn format_text(&self) -> (r: String) {
        self.to_string()
    }

    proof fn lemma_round_trip(m: Seq<char>) {
    }
}

impl TextValue for XsId {
    type Model = Seq<char>;

    open spec fn model(&self) -> Seq<char> {
        self.view()
    }

    open spec fn wf_model(m: Seq<char>) -> bool {
        is_nc_name(m)
    }

    open spec fn text_of(m: Seq<char>) -> Seq<char> {
        m
    }

    open spec fn parse_of(s: Seq<char>) -> Option<Seq<char>> {
        xs_id_parse(s)
    }

    open spec fn parse_error(s: Seq<char>) -> MpdError {
        MpdError::UnmatchedPattern
    }

    fn parse_text(s: &str) -> (r: Result<XsId, MpdError>) {
        XsId::from_str(s)
    }

    fn format_text(&self) -> (r: String) {
        self.to_string()
    }

    proof fn lemma_round_trip(m: Seq<char>) {
        lemma_xs_id_round_trip(m);
    }
}

impl TextValue for XsLanguage {
    type Model = Seq<char>;

    open spec fn model(&self) -> Seq<char> {
        self.view()
    }

    open spec fn wf_model(m: Seq<char>) -> bool {
        is_language(m)
    }

    open spec fn text_of(m: Seq<char>) -> Seq<char> {
        m
    }

    open spec fn parse_of(s: Seq<char>) -> Option<Seq<char>> {
        xs_language_parse(s)
    }

    open spec fn parse_error(s: Seq<char>) -> MpdError {
        MpdError::UnmatchedPattern
    }

    fn parse_text(s: &str) -> (r: Result<XsLanguage, MpdError>) {
        XsLanguage::from_str(s)
    }

    fn format_text(&self) -> (r: String) {
        self.to_string()
    }

    proof fn lemma_round_trip(m: Seq<char>) {
        lemma_xs_language_round_trip(m);
    }
}

impl TextValue for NoWhitespace {
    type Model = Seq<char>;

    open spec fn model(&self) -> Seq<char> {
        self.view()
    }

    open spec fn wf_model(m: Seq<char>) -> bool {
        all_solid(m)
    }

    open spec fn text_of(m: Seq<char>) -> Seq<char> {
        m
    }

    open spec fn parse_of(s: Seq<char>) -> Option<Seq<char>> {
        no_whitespace_parse(s)
    }

    open spec fn parse_error(s: Seq<char>) -> MpdError {
        MpdError::UnmatchedPattern
    }

    fn parse_text(s: &str) -> (r: Result<NoWhitespace, MpdError>) {
        NoWhitespace::from_str(s)
    }

    fn format_text(&self) -> (r: String) {
        self.to_string()
    }

    proof fn lemma_round_trip(m: Seq<char>) {
    }
}

impl TextValue for FourCC {
    type Model = Seq<u8>;

    open spec fn model(&self) -> Seq<u8> {
        self.view()
    }

    open spec fn wf_model(m: Seq<u8>) -> bool {
        m.len() == 4 && valid_utf8(m)
    }

    open spec fn text_of(m: Seq<u8>) -> Seq<char> {
        fourcc_text(m)
    }

    open spec fn parse_of(s: Seq<char>) -> Option<Seq<u8>> {
        fourcc_parse(s)
    }

    open spec fn parse_error(s: Seq<char>) -> MpdError {
        MpdError::UnmatchedPattern
    }

    fn parse_text(s: &str) -> (r: Result<FourCC, MpdError>) {
        FourCC::from_str(s)
    }

    fn format_text(&self) -> (r: String) {
        self.to_string()
    }

    proof fn lemma_round_trip(m: Seq<u8>) {
        lemma_fourcc_round_trip(m);
    }
}

impl TextValue for Ratio {
    type Model = (nat, nat);

    open spec fn model(&self) -> (nat, nat) {
        self.view()
    }

    open spec fn wf_model(m: (nat, nat)) -> bool {
        ratio_wf(m)
    }

    open spec fn text_of(m: (nat, nat)) -> Seq<char> {
        ratio_text(m)
    }

    open spec fn parse_of(s: Seq<char>) -> Option<(nat, nat)> {
        ratio_parse(s)
    }

    open spec fn parse_error(s: Seq<char>) -> MpdError {
        ratio_error(s)
    }

    fn parse_text(s: &str) -> (r: Result<Ratio, MpdError>) {
        Ratio::from_str(s)
    }

    fn format_text(&self) -> (r: String) {
        self.to_string()
    }

    proof fn lemma_round_trip(m: (nat, nat)) {
        lemma_ratio_round_trip(m);
    }
}

impl TextValue for FrameRate {
    type Model = (nat, nat);

    open spec fn model(&self) -> (nat, nat) {
        self.view()
    }

    open spec fn wf_model(m: (nat, nat)) -> bool {
        framerate_wf(m)
    }

    open spec fn text_of(m: (nat, nat)) -> Seq<char> {
        framerate_text(m)
    }

    open spec fn parse_of(s: Seq<char>) -> Option<(nat, nat)> {
        framerate_parse(s)
    }

    open spec fn parse_error(s: Seq<char>) -> MpdError {
        framerate_error(s)
    }

    fn parse_text(s: &str) -> (r: Result<FrameRate, MpdError>) {
        FrameRate::from_str(s)
    }

    fn format_text(&self) -> (r: String) {
        self.to_string()
    }

    proof fn lemma_round_trip(m: (nat, nat)) {
        lemma_framerate_round_trip(m);
    }
}

impl TextValue for SingleByteRange {
    type Model = (nat, Option<nat>);

    open spec fn model(&self) -> (nat, Option<nat>) {
        self.view()
    }

    open spec fn wf_model(m: (nat, Option<nat>)) -> bool {
        byte_range_wf(m)
    }

    open spec fn text_of(m: (nat, Option<nat>)) -> Seq<char> {
        byte_range_text(m)
    }

    open spec fn parse_of(s: Seq<char>) -> Option<(nat, Option<nat>)> {
        byte_range_parse(s)
    }

    open spec fn parse_error(s: Seq<char>) -> MpdError {
        byte_range_error(s)
    }

    fn parse_text(s: &str) -> (r: Result<SingleByteRange, MpdError>) {
        SingleByteRange::from_str(s)
    }

    fn format_text(&self) -> (r: String) {
        self.to_string()
    }

    proof fn lemma_round_trip(m: (nat, Option<nat>)) {
        lemma_byte_range_round_trip(m);
    }
}

impl TextValue for StreamAccessPoint {
    type Model = nat;

    open spec fn model(&self) -> nat {
        self.view()
    }

    open spec fn wf_model(m: nat) -> bool {
        1 <= m <= 6
    }

    open spec fn text_of(m: nat) -> Seq<char> {
        dec(m)
    }

    open spec fn parse_of(s: Seq<char>) -> Option<nat> {
        sap_parse(s)
    }

    open spec fn parse_error(s: Seq<char>) -> MpdError {
        sap_error(s)
    }

    fn parse_text(s: &str) -> (r: Result<StreamAccessPoint, MpdError>) {
        StreamAccessPoint::from_str(s)
    }

    fn format_text(&self) -> (r: String) {
        self.to_string()
    }

    proof fn lemma_round_trip(m: nat) {
        lemma_sap_round_trip(m);
    }
}

impl TextValue for SimpList {
    type Model = Seq<Seq<char>>;

    open spec fn model(&self) -> Seq<Seq<char>> {
        self.view()
    }

    open spec fn wf_model(m: Seq<Seq<char>>) -> bool {
        simp_wf(m)
    }

    open spec fn text_of(m: Seq<Seq<char>>) -> Seq<char> {
        join(m, ',')
    }

    open spec fn parse_of(s: Seq<char>) -> Option<Seq<Seq<char>>> {
        simp_parse(s)
    }

    open spec fn parse_error(s: Seq<char>) -> MpdError {
        MpdError::UnmatchedPattern
    }

    fn parse_text(s: &str) -> (r: Result<SimpList, MpdError>) {
        SimpList::from_str(s)
    }

    fn format_text(&self) -> (r: String) {
        self.to_string()
    }

    proof fn lemma_round_trip(m: Seq<Seq<char>>) {
        lemma_simp_round_trip(m);
    }
}

impl TextValue for FancyList {
    type Model = FancyModel;

    open spec fn model(&self) -> FancyModel {
        self.view()
    }

    open spec fn wf_model(m: FancyModel) -> bool {
        fancy_wf(m)
    }

    open spec fn text_of(m: FancyModel) -> Seq<char> {
        fancy_text(m)
    }

    open spec fn parse_of(s: Seq<char>) -> Option<FancyModel> {
        fancy_parse(s)
    }

    open spec fn parse_error(s: Seq<char>) -> MpdError {
        MpdError::UnmatchedPattern
    }

    fn parse_text(s: &str) -> (r: Result<FancyList, MpdError>) {
        FancyList::from_str(s)
    }

    fn format_text(&self) -> (r: String) {
        self.to_string()
    }

    proof fn lemma_round_trip(m: FancyModel) {
        lemma_fancy_round_trip(m);
    }
}

impl TextValue for Codecs {
    type Model = CodecsModel;

    open spec fn model(&self) -> CodecsModel {
        self.view()
    }

    open spec fn wf_model(m: CodecsModel) -> bool {
        codecs_wf(m)
    }

    open spec fn text_of(m: CodecsModel) -> Seq<char> {
        codecs_text(m)
    }

    open spec fn parse_of(s: Seq<char>) -> Option<CodecsModel> {
        codecs_parse(s)
    }

    open spec fn parse_error(s: Seq<char>) -> MpdError {
        MpdError::UnmatchedPattern
    }

    fn parse_text(s: &str) -> (r: Result<Codecs, MpdError>) {
        Codecs::from_str(s)
    }

    fn format_text(&self) -> (r: String) {
        self.to_string()
    }

    proof fn lemma_round_trip(m: CodecsModel) {
        lemma_codecs_round_trip(m);
    }
}

impl TextValue for ListOfProfiles {
    type Model = Seq<Seq<char>>;

    open spec fn model(&self) -> Seq<Seq<char>> {
        self.view()
    }

    open spec fn wf_model(m: Seq<Seq<char>>) -> bool {
        profiles_wf(m)
    }

    open spec fn text_of(m: Seq<Seq<char>>) -> Seq<char> {
        join(m, ',')
    }

    open spec fn parse_of(s: Seq<char>) -> Option<Seq<Seq<char>>> {
        profiles_parse(s)
    }

    open spec fn parse_error(s: Seq<char>) -> MpdError {
        parse_all_error::<Profile>(split(s, ','))
    }

    fn parse_text(s: &str) -> (r: Result<ListOfProfiles, MpdError>) {
        ListOfProfiles::from_str(s)
    }

    fn format_text(&self) -> (r: String) {
        self.to_string()
    }

    proof fn lemma_round_trip(m: Seq<Seq<char>>) {
        lemma_profiles_round_trip(m);
    }
}

impl<T: TextValue> TextValue for WhitespaceSeparatedList<T> {
    type Model = Seq<T::Model>;

    open spec fn model(&self) -> Seq<T::Model> {
        self.view()
    }

    open spec fn wf_model(m: Seq<T::Model>) -> bool {
        ws_list_wf::<T>(m)
    }

    open spec fn text_of(m: Seq<T::Model>) -> Seq<char> {
        ws_list_text::<T>(m)
    }

    open spec fn parse_of(s: Seq<char>) -> Option<Seq<T::Model>> {
        ws_list_parse::<T>(s)
    }

    open spec fn parse_error(s: Seq<char>) -> MpdError {
        parse_all_error::<T>(ws_tokens(s))
    }

    fn parse_text(s: &str) -> (r: Result<WhitespaceSeparatedList<T>, MpdError>) {
        WhitespaceSeparatedList::from_str(s)
    }

    fn format_text(&self) -> (r: String) {
        self.to_string()
    }

    proof fn lemma_round_trip(m: Seq<T::Model>) {
        lemma_ws_list_round_trip::<T>(m);
    }
}

impl<T: TextValue> TextValue for CommaSeparatedList<T> {
    type Model = Seq<T::Model>;

    open spec fn model(&self) -> Seq<T::Model> {
        self.view()
    }

    open spec fn wf_model(m: Seq<T::Model>) -> bool {
        comma_list_wf::<T>(m)
    }

    open spec fn text_of(m: Seq<T::Model>) -> Seq<char> {
        comma_list_text::<T>(m)
    }

    open spec fn parse_of(s: Seq<char>) -> Option<Seq<T::Model>> {
        comma_list_parse::<T>(s)
    }

    open spec fn parse_error(s: Seq<char>) -> MpdError {
        comma_list_error::<T>(s)
    }

    fn parse_text(s: &str) -> (r: Result<CommaSeparatedList<T>, MpdError>) {
        CommaSeparatedList::from_str(s)
    }

    fn format_text(&self) -> (r: String) {
        self.to_string()
    }

    proof fn lemma_round_trip(m: Seq<T::Model>) {
        lemma_comma_list_round_trip::<T>(m);
    }
}

impl TextValue for AudioSamplingRate {
    type Model = Seq<nat>;

    open spec fn model(&self) -> Seq<nat> {
        self.view()
    }

    open spec fn wf_model(m: Seq<nat>) -> bool {
        1 <= m.len() <= 2 && forall|i: int| 0 <= i < m.len() ==> #[trigger] m[i] <= u32::MAX
    }

    open spec fn text_of(m: Seq<nat>) -> Seq<char> {
        ws_list_text::<u32>(m)
    }

    open spec fn parse_of(s: Seq<char>) -> Option<Seq<nat>> {
        sampling_rate_parse(s)
    }

    open spec fn parse_error(s: Seq<char>) -> MpdError {
        sampling_rate_error(s)
    }

    fn parse_text(s: &str) -> (r: Result<AudioSamplingRate, MpdError>) {
        AudioSamplingRate::from_str(s)
    }

    fn format_text(&self) -> (r: String) {
        self.to_string()
    }

    proof fn lemma_round_trip(m: Seq<nat>) {
        lemma_sampling_rate_round_trip(m);
    }
}

impl TextValue for XsDuration {
    type Model = (bool, nat, nat);

    open spec fn model(&self) -> (bool, nat, nat) {
        self.view()
    }

    open spec fn wf_model(m: (bool, nat, nat)) -> bool {
        duration_wf(m)
    }

    open spec fn text_of(m: (bool, nat, nat)) -> Seq<char> {
        duration_text(m)
    }

    open spec fn parse_of(s: Seq<char>) -> Option<(bool, nat, nat)> {
        duration_parse(s)
    }

    open spec fn parse_error(s: Seq<char>) -> MpdError {
        MpdError::UnmatchedPattern
    }

    fn parse_text(s: &str) -> (r: Result<XsDuration, MpdError>) {
        XsDuration::from_str(s)
    }

    fn format_text(&self) -> (r: String) {
        self.to_string()
    }

    proof fn lemma_round_trip(m: (bool, nat, nat)) {
        lemma_duration_round_trip(m);
    }
}

impl TextValue for XsInteger {
    type Model = int;

    open spec fn model(&self) -> int {
        self.view()
    }

    open spec fn wf_model(m: int) -> bool {
        true
    }

    open spec fn text_of(m: int) -> Seq<char> {
        integer_text(m)
    }

    open spec fn parse_of(s: Seq<char>) -> Option<int> {
        integer_parse(s)
    }

    open spec fn parse_error(s: Seq<char>) -> MpdError {
        MpdError::UnmatchedPattern
    }

    fn parse_text(s: &str) -> (r: Result<XsInteger, MpdError>) {
        XsInteger::from_str(s)
    }

    fn format_text(&self) -> (r: String) {
        self.to_string()
    }

    proof fn lemma_round_trip(m: int) {
        lemma_integer_round_trip(m);
    }
}

impl TextValue for XsDouble {
    type Model = Seq<char>;

    open spec fn model(&self) -> Seq<char> {
        self.view()
    }

    open spec fn wf_model(m: Seq<char>) -> bool {
        is_double_text(m)
    }

    open spec fn text_of(m: Seq<char>) -> Seq<char> {
        m
    }

    open spec fn parse_of(s: Seq<char>) -> Option<Seq<char>> {
        double_parse(s)
    }

    open spec fn parse_error(s: Seq<char>) -> MpdError {
        MpdError::UnmatchedPattern
    }

    fn parse_text(s: &str) -> (r: Result<XsDouble, MpdError>) {
        XsDouble::from_str(s)
    }

    fn format_text(&self) -> (r: String) {
        self.to_string()
    }

    proof fn lemma_round_trip(m: Seq<char>) {
    }
}

pub open spec fn period_signalling_parse(s: Seq<char>) -> Option<Seq<char>> {
    if s == "urn:mpeg:dash:period-continuity:2015"@ || s
        == "urn:mpeg:dash:period-connectivity:2015"@ {
        Some(s)
    } else {
        None
    }
}

impl TextValue for PeriodSignalling {
    type Model = Seq<char>;

    open spec fn model(&self) -> Seq<char> {
        self.view()
    }

    open spec fn wf_model(m: Seq<char>) -> bool {
        period_signalling_parse(m) is Some
    }

    open spec fn text_of(m: Seq<char>) -> Seq<char> {
        m
    }

    open spec fn parse_of(s: Seq<char>) -> Option<Seq<char>> {
        period_signalling_parse(s)
    }

    open spec fn parse_error(s: Seq<char>) -> MpdError {
        MpdError::UnmatchedPattern
    }

    fn parse_text(s: &str) -> (r: Result<PeriodSignalling, MpdError>) {
        PeriodSignalling::from_str(s)
    }

    fn format_text(&self) -> (r: String) {
        self.to_string()
    }

    proof fn lemma_round_trip(m: Seq<char>) {
    }
}

pub open spec fn identifier_parse(s: Seq<char>) -> Option<Seq<char>> {
    if s == "$RepresentationID$"@ || s == "$Number$"@ || s == "$Bandwidth$"@ || s == "$Time$"@
        || s == "$SubNumber$"@ {
        Some(s)
    } else {
        None
    }
}

impl TextValue for Identifier {
    type Model = Seq<char>;

    open spec fn model(&self) -> Seq<char> {
        self.view()
    }

    open spec fn wf_model(m: Seq<char>) -> bool {
        identifier_parse(m) is Some
    }

    open spec fn text_of(m: Seq<char>) -> Seq<char> {
        m
    }

    open spec fn parse_of(s: Seq<char>) -> Option<Seq<char>> {
        identifier_parse(s)
    }

    open spec fn parse_error(s: Seq<char>) -> MpdError {
        MpdError::UnmatchedPattern
    }

    fn parse_text(s: &str) -> (r: Result<Identifier, MpdError>) {
        Identifier::from_str(s)
    }

    fn format_text(&self) -> (r: String) {
        self.to_string()
    }

    proof fn lemma_round_trip(m: Seq<char>) {
    }
}

} // verus!
