use vstd::prelude::*;

use crate::error::MpdError;
use crate::text::{chars_of, dec, dec_exec, lemma_uint_of_dec, parse_uint, string_of, uint_upto, views};

verus! {

/// A value with a canonical text form.
///
/// `parse_of` and `text_of` describe, over the value's model, what
/// `parse_text` accepts and what `format_text` writes. Every well-formed
/// model is read back from its text unchanged.
pub trait TextValue: Sized {
    type Model;

    spec fn model(&self) -> Self::Model;

    spec fn wf_model(m: Self::Model) -> bool;

    spec fn text_of(m: Self::Model) -> Seq<char>;

    spec fn parse_of(s: Seq<char>) -> Option<Self::Model>;

    /// The error for a text that `parse_of` refuses.
    spec fn parse_error(s: Seq<char>) -> MpdError;

    fn parse_text(s: &str) -> (r: Result<Self, MpdError>)
        ensures
            match Self::parse_of(s@) {
                Some(m) => r is Ok && r->Ok_0.model() == m,
                None => r is Err && r->Err_0 == Self::parse_error(s@),
            },
    ;

    fn format_text(&self) -> (r: String)
        ensures
            r@ == Self::text_of(self.model()),
    ;

    proof fn lemma_round_trip(m: Self::Model)
        requires
            Self::wf_model(m),
        ensures
            Self::parse_of(Self::text_of(m)) == Some(m),
    ;
}

impl TextValue for u32 {
    type Model = nat;

    open spec fn model(&self) -> nat {
        *self as nat
    }

    open spec fn wf_model(m: nat) -> bool {
        m <= u32::MAX
    }

    open spec fn text_of(m: nat) -> Seq<char> {
        dec(m)
    }

    open spec fn parse_of(s: Seq<char>) -> Option<nat> {
        uint_upto(s, u32::MAX as nat)
    }

    open spec fn parse_error(s: Seq<char>) -> MpdError {
        MpdError::ParseIntError
    }

    fn parse_text(s: &str) -> (r: Result<u32, MpdError>) {
        let cs = chars_of(s);
        assert(cs@.subrange(0, cs@.len() as int) =~= s@);
        match parse_uint(&cs, 0, cs.len(), u32::MAX as u64) {
            Some(v) => Ok(v as u32),
            None => Err(MpdError::ParseIntError),
        }
    }

    fn format_text(&self) -> (r: String) {
        string_of(&dec_exec(*self as u64))
    }

    proof fn lemma_round_trip(m: nat) {
        lemma_uint_of_dec(m);
    }
}

impl TextValue for String {
    type Model = Seq<char>;

    open spec fn model(&self) -> Seq<char> {
        self@
    }

    open spec fn wf_model(m: Seq<char>) -> bool {
        true
    }

    open spec fn text_of(m: Seq<char>) -> Seq<char> {
        m
    }

    open spec fn parse_of(s: Seq<char>) -> Option<Seq<char>> {
        Some(s)
    }

    open spec fn parse_error(s: Seq<char>) -> MpdError {
        MpdError::UnmatchedPattern
    }

    fn parse_text(s: &str) -> (r: Result<String, MpdError>) {
        Ok(s.to_owned())
    }

    fn format_text(&self) -> (r: String) {
        self.clone()
    }

    proof fn lemma_round_trip(m: Seq<char>) {
    }
}

/// The canonical texts of a sequence of models.
pub open spec fn texts_of<T: TextValue>(ms: Seq<T::Model>) -> Seq<Seq<char>> {
    ms.map_values(|m: T::Model| T::text_of(m))
}

/// Each piece read as a `T`, or `None` where one of them is not.
pub open spec fn parse_all<T: TextValue>(pieces: Seq<Seq<char>>) -> Option<Seq<T::Model>>
    decreases pieces.len(),
{
    if pieces.len() == 0 {
        Some(Seq::empty())
    } else {
        match parse_all::<T>(pieces.drop_last()) {
            Some(init) => match T::parse_of(pieces.last()) {
                Some(m) => Some(init.push(m)),
                None => None,
            },
            None => None,
        }
    }
}

/// The error of the first piece that is not a `T`, where there is one.
pub open spec fn parse_all_error<T: TextValue>(pieces: Seq<Seq<char>>) -> MpdError
    decreases pieces.len(),
{
    if pieces.len() == 0 {
        MpdError::UnmatchedPattern
    } else {
        match parse_all::<T>(pieces.drop_last()) {
            Some(_) => T::parse_error(pieces.last()),
            None => parse_all_error::<T>(pieces.drop_last()),
        }
    }
}

pub proof fn lemma_parse_all_texts<T: TextValue>(ms: Seq<T::Model>)
    requires
        forall|i: int| 0 <= i < ms.len() ==> T::wf_model(#[trigger] ms[i]),
    ensures
        parse_all::<T>(texts_of::<T>(ms)) == Some(ms),
    decreases ms.len(),
{
    if ms.len() > 0 {
        let init = ms.drop_last();
        assert forall|i: int| 0 <= i < init.len() implies T::wf_model(#[trigger] init[i]) by {
            assert(init[i] == ms[i]);
        }
        lemma_parse_all_texts::<T>(init);
        assert(texts_of::<T>(ms).drop_last() =~= texts_of::<T>(init));
        T::lemma_round_trip(ms.last());
        assert(init.push(ms.last()) =~= ms);
    } else {
        assert(texts_of::<T>(ms) =~= Seq::<Seq<char>>::empty());
    }
}

pub proof fn lemma_parse_all_none_extends<T: TextValue>(pieces: Seq<Seq<char>>, k: int)
    requires
        0 <= k <= pieces.len(),
        parse_all::<T>(pieces.subrange(0, k)) is None,
    ensures
        parse_all::<T>(pieces) is None,
        parse_all_error::<T>(pieces) == parse_all_error::<T>(pieces.subrange(0, k)),
    decreases pieces.len() - k,
{
    if k < pieces.len() {
        assert(pieces.subrange(0, k + 1).drop_last() =~= pieces.subrange(0, k));
        lemma_parse_all_none_extends::<T>(pieces, k + 1);
    } else {
        assert(pieces.subrange(0, k) =~= pieces);
    }
}

/// Reads each piece as a `T`; fails on the first one that is not.
pub fn parse_pieces<T: TextValue>(pieces: &Vec<Vec<char>>) -> (r: Result<Vec<T>, MpdError>)
    ensures
        match parse_all::<T>(views(pieces@)) {
            Some(ms) => r is Ok && r->Ok_0@.map_values(|x: T| x.model()) == ms,
            None => r is Err && r->Err_0 == parse_all_error::<T>(views(pieces@)),
        },
{
    let mut out: Vec<T> = Vec::new();
    let mut i: usize = 0;
    assert(views(pieces@).subrange(0, 0) =~= Seq::<Seq<char>>::empty());
    assert(out@.map_values(|x: T| x.model()) =~= Seq::<T::Model>::empty());
    while i < pieces.len()
        invariant
            i <= pieces.len(),
            parse_all::<T>(views(pieces@).subrange(0, i as int)) == Some(
                out@.map_values(|x: T| x.model()),
            ),
        decreases pieces.len() - i,
    {
        let ghost pre = views(pieces@).subrange(0, i as int);
        let ghost nxt = views(pieces@).subrange(0, i + 1);
        assert(nxt.drop_last() =~= pre);
        assert(nxt.last() == pieces@[i as int]@);
        let s = string_of(&pieces[i]);
        match T::parse_text(s.as_str()) {
            Ok(v) => {
                let ghost before = out@.map_values(|x: T| x.model());
                out.push(v);
                assert(out@.map_values(|x: T| x.model()) =~= before.push(v.model()));
            },
            Err(e) => {
                proof {
                    lemma_parse_all_none_extends::<T>(views(pieces@), i as int + 1);
                }
                return Err(e);
            },
        }
        i = i + 1;
    }
    assert(views(pieces@).subrange(0, pieces.len() as int) =~= views(pieces@));
    Ok(out)
}

} // verus!
