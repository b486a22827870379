use vstd::prelude::*;

use crate::codec::{
    lemma_parse_all_texts, parse_all, parse_all_error, parse_pieces, texts_of, TextValue,
};
use crate::error::MpdError;
use crate::text::{
    chars_of, has_no, join, join_exec, lemma_join_len, lemma_split_join, lemma_ws_tokens_join,
    no_ws, split, split_exec, string_of, views, ws_tokens, ws_tokens_exec,
};
use crate::types::FourCC;

verus! {

pub open spec fn ws_list_parse<T: TextValue>(s: Seq<char>) -> Option<Seq<T::Model>> {
    parse_all::<T>(ws_tokens(s))
}

pub open spec fn ws_list_text<T: TextValue>(m: Seq<T::Model>) -> Seq<char> {
    join(texts_of::<T>(m), ' ')
}

/// Each element is well formed and its text is a single non-empty token.
pub open spec fn ws_list_wf<T: TextValue>(m: Seq<T::Model>) -> bool {
    forall|i: int|
        0 <= i < m.len() ==> T::wf_model(#[trigger] m[i]) && T::text_of(m[i]).len() >= 1
            && no_ws(T::text_of(m[i]))
}

/// A whitespace-separated list of values.
#[derive(Debug, Default, Clone, PartialEq, Eq, Hash)]
pub struct WhitespaceSeparatedList<T: TextValue> {
    value: Vec<T>,
}

/// Whitespace-separated list of unsigned integers
pub type UIntVector = WhitespaceSeparatedList<u32>;

/// Whitespace-separated list of strings
pub type StringVector = WhitespaceSeparatedList<String>;

/// Whitespace-separated list of four-character codes
pub type ListOfFourCC = WhitespaceSeparatedList<FourCC>;

pub open spec fn models_of<T: TextValue>(v: Seq<T>) -> Seq<T::Model> {
    v.map_values(|x: T| x.model())
}

/// The texts of the values, one piece each.
fn format_pieces<T: TextValue>(v: &Vec<T>) -> (r: Vec<Vec<char>>)
    ensures
        views(r@) == texts_of::<T>(models_of(v@)),
{
    let mut pieces: Vec<Vec<char>> = Vec::new();
    let mut i: usize = 0;
    while i < v.len()
        invariant
            i <= v.len(),
            views(pieces@) == texts_of::<T>(models_of(v@)).subrange(0, i as int),
        decreases v.len() - i,
    {
        let ghost before = pieces@;
        let t = v[i].format_text();
        let tc = chars_of(t.as_str());
        pieces.push(tc);
        assert(views(pieces@) =~= views(before).push(tc@));
        assert(texts_of::<T>(models_of(v@)).subrange(0, i + 1) =~= texts_of::<T>(
            models_of(v@),
        ).subrange(0, i as int).push(T::text_of(v@[i as int].model())));
        i = i + 1;
    }
    assert(texts_of::<T>(models_of(v@)).subrange(0, v.len() as int) =~= texts_of::<T>(
        models_of(v@),
    ));
    pieces
}

impl<T: TextValue> WhitespaceSeparatedList<T> {
    pub closed spec fn view(&self) -> Seq<T::Model> {
        models_of(self.value@)
    }

    pub fn from(value: Vec<T>) -> (r: WhitespaceSeparatedList<T>)
        ensures
            r.view() == models_of(value@),
    {
        WhitespaceSeparatedList { value }
    }

    pub fn items(&self) -> (r: &Vec<T>)
        ensures
            models_of(r@) == self.view(),
    {
        &self.value
    }

    pub fn len(&self) -> (r: usize)
        ensures
            r == self.view().len(),
    {
        self.value.len()
    }

    /// Splits on runs of whitespace and reads each token; fails with the error
    /// of the first token that is not a value. The empty text is the empty
    /// list.
    pub fn from_str(s: &str) -> (r: Result<WhitespaceSeparatedList<T>, MpdError>)
        ensures
            match ws_list_parse::<T>(s@) {
                Some(m) => r is Ok && r->Ok_0.view() == m,
                None => r is Err && r->Err_0 == parse_all_error::<T>(ws_tokens(s@)),
            },
    {
        let cs = chars_of(s);
        let toks = ws_tokens_exec(&cs);
        match parse_pieces::<T>(&toks) {
            Ok(value) => Ok(WhitespaceSeparatedList { value }),
            Err(e) => Err(e),
        }
    }

    /// The values' texts joined with single spaces; empty for an empty list.
    pub fn to_string(&self) -> (r: String)
        ensures
            r@ == ws_list_text::<T>(self.view()),
    {
        let pieces = format_pieces(&self.value);
        string_of(&join_exec(&pieces, ' '))
    }
}

pub proof fn lemma_ws_list_round_trip<T: TextValue>(m: Seq<T::Model>)
    requires
        ws_list_wf::<T>(m),
    ensures
        ws_list_parse::<T>(ws_list_text::<T>(m)) == Some(m),
{
    let ts = texts_of::<T>(m);
    assert forall|i: int| 0 <= i < ts.len() implies (#[trigger] ts[i]).len() >= 1 && no_ws(
        ts[i],
    ) by {
        assert(ts[i] == T::text_of(m[i]));
    }
    lemma_ws_tokens_join(ts);
    assert forall|i: int| 0 <= i < m.len() implies T::wf_model(#[trigger] m[i]) by {
    }
    lemma_parse_all_texts::<T>(m);
}

// ---------------------------------------------------------------------------
// Comma-separated list
// ---------------------------------------------------------------------------

/// The empty text is the empty list; any other text is split on every
/// comma (commas do not collapse) and each piece read as a `T`.
pub open spec fn comma_list_parse<T: TextValue>(s: Seq<char>) -> Option<Seq<T::Model>> {
    if s.len() == 0 {
        Some(Seq::empty())
    } else {
        parse_all::<T>(split(s, ','))
    }
}

pub open spec fn comma_list_text<T: TextValue>(m: Seq<T::Model>) -> Seq<char> {
    join(texts_of::<T>(m), ',')
}

/// Each element is well formed and its text is non-empty and holds no comma.
pub open spec fn comma_list_wf<T: TextValue>(m: Seq<T::Model>) -> bool {
    forall|i: int|
        0 <= i < m.len() ==> T::wf_model(#[trigger] m[i]) && T::text_of(m[i]).len() >= 1
            && has_no(T::text_of(m[i]), ',')
}

/// The error of the first piece that is not a `T`.
pub open spec fn comma_list_error<T: TextValue>(s: Seq<char>) -> MpdError {
    parse_all_error::<T>(split(s, ','))
}

/// A comma-separated list of values.
#[derive(Debug, Default, Clone, PartialEq, Eq, Hash)]
pub struct CommaSeparatedList<T: TextValue> {
    value: Vec<T>,
}

impl<T: TextValue> CommaSeparatedList<T> {
    pub closed spec fn view(&self) -> Seq<T::Model> {
        models_of(self.value@)
    }

    pub fn from(value: Vec<T>) -> (r: CommaSeparatedList<T>)
        ensures
            r.view() == models_of(value@),
    {
        CommaSeparatedList { value }
    }

    pub fn items(&self) -> (r: &Vec<T>)
        ensures
            models_of(r@) == self.view(),
    {
        &self.value
    }

    /// Splits on commas and reads each piece; fails with the error of the
    /// first piece that is not a value. The empty text is the empty list.
    pub fn from_str(s: &str) -> (r: Result<CommaSeparatedList<T>, MpdError>)
        ensures
            match comma_list_parse::<T>(s@) {
                Some(m) => r is Ok && r->Ok_0.view() == m,
                None => r is Err && r->Err_0 == comma_list_error::<T>(s@),
            },
    {
        let cs = chars_of(s);
        if cs.len() == 0 {
            let value: Vec<T> = Vec::new();
            assert(models_of(value@) =~= Seq::<T::Model>::empty());
            return Ok(CommaSeparatedList { value });
        }
        let pieces = split_exec(&cs, ',');
        match parse_pieces::<T>(&pieces) {
            Ok(value) => Ok(CommaSeparatedList { value }),
            Err(e) => Err(e),
        }
    }

    /// The values' texts joined with commas; empty for an empty list.
    pub fn to_string(&self) -> (r: String)
        ensures
            r@ == comma_list_text::<T>(self.view()),
    {
        let pieces = format_pieces(&self.value);
        string_of(&join_exec(&pieces, ','))
    }
}

pub proof fn lemma_comma_list_round_trip<T: TextValue>(m: Seq<T::Model>)
    requires
        comma_list_wf::<T>(m),
    ensures
        comma_list_parse::<T>(comma_list_text::<T>(m)) == Some(m),
{
    let ts = texts_of::<T>(m);
    assert forall|i: int| 0 <= i < m.len() implies T::wf_model(#[trigger] m[i]) by {
    }
    lemma_parse_all_texts::<T>(m);
    if m.len() == 0 {
        assert(ts =~= Seq::<Seq<char>>::empty());
    } else {
        assert forall|i: int| 0 <= i < ts.len() implies has_no(#[trigger] ts[i], ',') by {
            assert(ts[i] == T::text_of(m[i]));
        }
        lemma_split_join(ts, ',');
        assert(ts[0] == T::text_of(m[0]));
        lemma_join_len(ts, ',');
    }
}

// ---------------------------------------------------------------------------
// Audio sampling rate
// ---------------------------------------------------------------------------

pub open spec fn sampling_rate_parse(s: Seq<char>) -> Option<Seq<nat>> {
    match parse_all::<u32>(ws_tokens(s)) {
        Some(m) => if 1 <= m.len() <= 2 {
            Some(m)
        } else {
            None
        },
        None => None,
    }
}

/// The error for a text that is not one or two sampling rates.
pub open spec fn sampling_rate_error(s: Seq<char>) -> MpdError {
    match parse_all::<u32>(ws_tokens(s)) {
        None => parse_all_error::<u32>(ws_tokens(s)),
        Some(_) => MpdError::InvalidData(
            "The number of Audio sampling rate must be between 1 and 2",
        ),
    }
}

/// One or two sampling rates, separated by whitespace.
#[derive(Debug, Default, Clone, PartialEq, Eq, Hash)]
pub struct AudioSamplingRate(UIntVector);

impl AudioSamplingRate {
    pub closed spec fn view(&self) -> Seq<nat> {
        self.0.view()
    }

    pub fn rates(&self) -> (r: &UIntVector)
        ensures
            r.view() == self.view(),
    {
        &self.0
    }

    pub fn from_str(s: &str) -> (r: Result<AudioSamplingRate, MpdError>)
        ensures
            match sampling_rate_parse(s@) {
                Some(m) => r is Ok && r->Ok_0.view() == m,
                None => r is Err && r->Err_0 == sampling_rate_error(s@),
            },
    {
        let cs = chars_of(s);
        let toks = ws_tokens_exec(&cs);
        match parse_pieces::<u32>(&toks) {
            Ok(items) => {
                if items.len() > 0 && items.len() < 3 {
                    Ok(AudioSamplingRate(WhitespaceSeparatedList::from(items)))
                } else {
                    Err(
                        MpdError::InvalidData(
                            "The number of Audio sampling rate must be between 1 and 2",
                        ),
                    )
                }
            },
            Err(e) => Err(e),
        }
    }

    pub fn to_string(&self) -> (r: String)
        ensures
            r@ == ws_list_text::<u32>(self.view()),
    {
        self.0.to_string()
    }
}

pub proof fn lemma_sampling_rate_round_trip(m: Seq<nat>)
    requires
        1 <= m.len() <= 2,
        forall|i: int| 0 <= i < m.len() ==> #[trigger] m[i] <= u32::MAX,
    ensures
        sampling_rate_parse(ws_list_text::<u32>(m)) == Some(m),
{
    assert forall|i: int| 0 <= i < m.len() implies u32::wf_model(#[trigger] m[i])
        && u32::text_of(m[i]).len() >= 1 && no_ws(u32::text_of(m[i])) by {
        crate::text::lemma_dec(m[i]);
        crate::text::lemma_dec_no_ws(m[i]);
    }
    lemma_ws_list_round_trip::<u32>(m);
}

} // verus!
