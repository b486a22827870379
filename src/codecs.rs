use vstd::prelude::*;

use crate::error::MpdError;
use crate::patterns::{
    in_class, is_id_list, is_id_list_exec, is_language, is_language_exec,
    lemma_language_trim, lemma_piece_has_no, run_of, run_of_exec, trim_start, CharClass,
};
use crate::text::{
    chars_of, contains, contains_exec, has_no, is_ws, join, join_strings, lemma_join_has_no,
    lemma_split_concat, lemma_split_join, lemma_split_single, split, split_exec, string_of,
    strings_of, sviews,
};

verus! {

/// A list of codec identifiers of class `k` is well formed: at least one,
/// the first a bare identifier, each other one possibly preceded by
/// whitespace.
pub open spec fn id_list_wf(xs: Seq<Seq<char>>, k: CharClass) -> bool {
    xs.len() >= 1 && run_of(xs[0], k) && forall|i: int|
        1 <= i < xs.len() ==> run_of(trim_start(#[trigger] xs[i]), k)
}

pub proof fn lemma_id_list_has_no(xs: Seq<Seq<char>>, k: CharClass, c: char)
    requires
        id_list_wf(xs, k),
        !is_ws(c),
        !in_class(c, k),
    ensures
        forall|i: int| 0 <= i < xs.len() ==> has_no(#[trigger] xs[i], c),
        has_no(join(xs, ','), c) || c == ',',
{
    assert forall|i: int| 0 <= i < xs.len() implies has_no(#[trigger] xs[i], c) by {
        if i == 0 {
            lemma_piece_has_no(xs[0], k, c);
        } else {
            lemma_piece_has_no(xs[i], k, c);
        }
    }
    if c != ',' {
        lemma_join_has_no(xs, ',', c);
    }
}

/// Joining a well-formed list and reading it back gives the list.
pub proof fn lemma_id_list_round_trip(xs: Seq<Seq<char>>, k: CharClass)
    requires
        id_list_wf(xs, k),
        !in_class(',', k),
    ensures
        is_id_list(join(xs, ','), k),
        split(join(xs, ','), ',') == xs,
{
    lemma_id_list_has_no(xs, k, ',');
    lemma_split_join(xs, ',');
}

// ---------------------------------------------------------------------------
// SimpList
// ---------------------------------------------------------------------------

pub open spec fn simp_parse(s: Seq<char>) -> Option<Seq<Seq<char>>> {
    if is_id_list(s, CharClass::AlnumDash) {
        Some(split(s, ','))
    } else {
        None
    }
}

pub open spec fn simp_wf(xs: Seq<Seq<char>>) -> bool {
    id_list_wf(xs, CharClass::AlnumDash)
}

/// A simple codec list: `id *( "," id )`, ids without dots; whitespace may
/// follow a comma.
#[derive(Debug, Default, Clone, PartialEq, Eq, Hash)]
pub struct SimpList {
    codecs: Vec<String>,
}

impl SimpList {
    pub closed spec fn view(&self) -> Seq<Seq<char>> {
        sviews(self.codecs@)
    }

    pub fn from_str(s: &str) -> (r: Result<SimpList, MpdError>)
        ensures
            match simp_parse(s@) {
                Some(m) => r is Ok && r->Ok_0.view() == m,
                None => r matches Err(MpdError::UnmatchedPattern),
            },
    {
        let cs = chars_of(s);
        if !is_id_list_exec(&cs, &CharClass::AlnumDash) {
            return Err(MpdError::UnmatchedPattern);
        }
        let parts = split_exec(&cs, ',');
        Ok(SimpList { codecs: strings_of(&parts) })
    }

    /// The identifiers joined with commas.
    pub fn to_string(&self) -> (r: String)
        ensures
            r@ == join(self.view(), ','),
    {
        string_of(&join_strings(&self.codecs, ','))
    }
}

pub proof fn lemma_simp_round_trip(xs: Seq<Seq<char>>)
    requires
        simp_wf(xs),
    ensures
        simp_parse(join(xs, ',')) == Some(xs),
{
    lemma_id_list_round_trip(xs, CharClass::AlnumDash);
}

// ---------------------------------------------------------------------------
// FancyList
// ---------------------------------------------------------------------------

/// Charset, language and codec identifiers of a fancy list.
pub type FancyModel = (Option<Seq<char>>, Option<Seq<char>>, Seq<Seq<char>>);

pub open spec fn fancy_parse(s: Seq<char>) -> Option<FancyModel> {
    let q = split(s, '\'');
    if q.len() == 1 {
        if is_id_list(s, CharClass::AlnumDashDot) {
            Some((None, None, split(s, ',')))
        } else {
            None
        }
    } else if q.len() == 3 {
        if run_of(q[0], CharClass::AlnumDash) && is_language(q[1]) && is_id_list(
            q[2],
            CharClass::AlnumDashDot,
        ) {
            Some((Some(q[0]), Some(q[1]), split(q[2], ',')))
        } else {
            None
        }
    } else {
        None
    }
}

pub open spec fn fancy_text(m: FancyModel) -> Seq<char> {
    let cs = match m.0 {
        Some(c) => c,
        None => Seq::empty(),
    };
    match m.1 {
        Some(l) => cs + seq!['\''] + l + seq!['\''] + join(m.2, ','),
        None => cs + join(m.2, ','),
    }
}

pub open spec fn fancy_wf(m: FancyModel) -> bool {
    id_list_wf(m.2, CharClass::AlnumDashDot) && match (m.0, m.1) {
        (None, None) => true,
        (Some(c), Some(l)) => run_of(c, CharClass::AlnumDash) && is_language(l),
        _ => false,
    }
}

/// A fancy codec list: `[charset "'" language "'"] id-list`, where ids may
/// hold dots.
#[derive(Debug, Default, Clone, PartialEq, Eq, Hash)]
pub struct FancyList {
    charset: Option<String>,
    language: Option<String>,
    codecs: Vec<String>,
}

pub open spec fn opt_view(o: Option<String>) -> Option<Seq<char>> {
    match o {
        Some(s) => Some(s@),
        None => None,
    }
}

impl FancyList {
    pub closed spec fn view(&self) -> FancyModel {
        (opt_view(self.charset), opt_view(self.language), sviews(self.codecs@))
    }

    pub fn from_str(s: &str) -> (r: Result<FancyList, MpdError>)
        ensures
            match fancy_parse(s@) {
                Some(m) => r is Ok && r->Ok_0.view() == m,
                None => r matches Err(MpdError::UnmatchedPattern),
            },
    {
        let cs = chars_of(s);
        let q = split_exec(&cs, '\'');
        if q.len() == 1 {
            if !is_id_list_exec(&cs, &CharClass::AlnumDashDot) {
                return Err(MpdError::UnmatchedPattern);
            }
            let parts = split_exec(&cs, ',');
            Ok(FancyList { charset: None, language: None, codecs: strings_of(&parts) })
        } else if q.len() == 3 {
            assert(q@[0]@ == split(s@, '\'')[0]);
            assert(q@[1]@ == split(s@, '\'')[1]);
            assert(q@[2]@ == split(s@, '\'')[2]);
            if !(run_of_exec(&q[0], &CharClass::AlnumDash) && is_language_exec(&q[1])
                && is_id_list_exec(&q[2], &CharClass::AlnumDashDot)) {
                return Err(MpdError::UnmatchedPattern);
            }
            let parts = split_exec(&q[2], ',');
            Ok(
                FancyList {
                    charset: Some(string_of(&q[0])),
                    language: Some(string_of(&q[1])),
                    codecs: strings_of(&parts),
                },
            )
        } else {
            Err(MpdError::UnmatchedPattern)
        }
    }

    pub fn to_string(&self) -> (r: String)
        ensures
            r@ == fancy_text(self.view()),
    {
        let mut out: Vec<char> = match &self.charset {
            Some(c) => chars_of(c.as_str()),
            None => Vec::new(),
        };
        match &self.language {
            Some(l) => {
                out.push('\'');
                let lc = chars_of(l.as_str());
                crate::text::append_chars(&mut out, &lc);
                out.push('\'');
            },
            None => {},
        }
        let j = join_strings(&self.codecs, ',');
        crate::text::append_chars(&mut out, &j);
        string_of(&out)
    }
}

pub proof fn lemma_fancy_round_trip(m: FancyModel)
    requires
        fancy_wf(m),
    ensures
        fancy_parse(fancy_text(m)) == Some(m),
{
    let j = join(m.2, ',');
    lemma_id_list_round_trip(m.2, CharClass::AlnumDashDot);
    lemma_id_list_has_no(m.2, CharClass::AlnumDashDot, '\'');
    match (m.0, m.1) {
        (Some(c), Some(l)) => {
            lemma_piece_has_no(c, CharClass::AlnumDash, '\'');
            lemma_language_trim(l);
            lemma_split_concat(l, j, '\'');
            lemma_split_concat(c, l + seq!['\''] + j, '\'');
            lemma_split_single(c, '\'');
            lemma_split_single(l, '\'');
            lemma_split_single(j, '\'');
            assert(fancy_text(m) =~= c + seq!['\''] + (l + seq!['\''] + j));
            assert(split(fancy_text(m), '\'') =~= seq![c, l, j]);
        },
        _ => {
            lemma_split_single(j, '\'');
            assert(fancy_text(m) =~= j);
        },
    }
}

// ---------------------------------------------------------------------------
// Codecs
// ---------------------------------------------------------------------------

/// A codecs attribute: a fancy list where the text holds a quote or a dot,
/// a simple list otherwise.
#[derive(Debug, Clone, PartialEq, Eq, Hash)]
pub enum Codecs {
    Fancy(FancyList),
    Simp(SimpList),
}

/// Whether the list is fancy, and its charset, language and identifiers.
pub type CodecsModel = (bool, FancyModel);

pub open spec fn codecs_parse(s: Seq<char>) -> Option<CodecsModel> {
    if contains(s, '\'') || contains(s, '.') {
        match fancy_parse(s) {
            Some(m) => Some((true, m)),
            None => None,
        }
    } else {
        match simp_parse(s) {
            Some(xs) => Some((false, (None, None, xs))),
            None => None,
        }
    }
}

pub open spec fn codecs_text(m: CodecsModel) -> Seq<char> {
    if m.0 {
        fancy_text(m.1)
    } else {
        join(m.1.2, ',')
    }
}

pub open spec fn codecs_wf(m: CodecsModel) -> bool {
    if m.0 {
        fancy_wf(m.1) && (contains(fancy_text(m.1), '\'') || contains(fancy_text(m.1), '.'))
    } else {
        m.1.0 is None && m.1.1 is None && simp_wf(m.1.2)
    }
}

impl Codecs {
    pub closed spec fn view(&self) -> CodecsModel {
        match self {
            Codecs::Fancy(f) => (true, f.view()),
            Codecs::Simp(s) => (false, (None, None, s.view())),
        }
    }

    pub fn from_str(s: &str) -> (r: Result<Codecs, MpdError>)
        ensures
            match codecs_parse(s@) {
                Some(m) => r is Ok && r->Ok_0.view() == m,
                None => r matches Err(MpdError::UnmatchedPattern),
            },
    {
        let cs = chars_of(s);
        if contains_exec(&cs, '\'') || contains_exec(&cs, '.') {
            match FancyList::from_str(s) {
                Ok(f) => Ok(Codecs::Fancy(f)),
                Err(e) => Err(e),
            }
        } else {
            match SimpList::from_str(s) {
                Ok(l) => Ok(Codecs::Simp(l)),
                Err(e) => Err(e),
            }
        }
    }

    pub fn to_string(&self) -> (r: String)
        ensures
            r@ == codecs_text(self.view()),
    {
        match self {
            Codecs::Fancy(f) => f.to_string(),
            Codecs::Simp(s) => s.to_string(),
        }
    }
}

pub proof fn lemma_codecs_round_trip(m: CodecsModel)
    requires
        codecs_wf(m),
    ensures
        codecs_parse(codecs_text(m)) == Some(m),
{
    if m.0 {
        lemma_fancy_round_trip(m.1);
    } else {
        lemma_simp_round_trip(m.1.2);
        lemma_id_list_has_no(m.1.2, CharClass::AlnumDash, '\'');
        lemma_id_list_has_no(m.1.2, CharClass::AlnumDash, '.');
    }
}

} // verus!
