//! Header lists: the case-insensitive, order-preserving multimap carried on
//! each side of the request container, together with the operations the
//! middleware outcomes apply to it.

use vstd::prelude::*;
use crate::strutil::{
    lower, valid_header_name, valid_header_value, ascii_lower, check_header_name,
    check_header_value,
};

verus! {

/// One header entry as carried over the middleware RPC and inside the
/// container: a name and a value.
pub struct Header {
    pub name: String,
    pub value: String,
}

/// The mathematical shape of one header entry.
pub ghost struct HeaderView {
    pub name: Seq<char>,
    pub value: Seq<char>,
}

impl View for Header {
    type V = HeaderView;

    open spec fn view(&self) -> HeaderView {
        HeaderView { name: self.name@, value: self.value@ }
    }
}

impl DeepView for Header {
    type V = HeaderView;

    open spec fn deep_view(&self) -> HeaderView {
        self@
    }
}

/// A header entry with its name lower-cased.
pub open spec fn lower_header(h: HeaderView) -> HeaderView {
    HeaderView { name: lower(h.name), value: h.value }
}

/// A header sequence with every name lower-cased.
pub open spec fn lower_headers(hs: Seq<HeaderView>) -> Seq<HeaderView> {
    hs.map_values(|h: HeaderView| lower_header(h))
}

/// Whether `n` names the same header as one of `names`, comparing
/// case-insensitively.
pub open spec fn name_matches(n: Seq<char>, names: Seq<Seq<char>>) -> bool {
    exists|k: int| 0 <= k < names.len() && lower(names[k]) == lower(n)
}

/// The header sequence with every entry whose name occurs in `names`
/// (case-insensitively) removed; the order of the survivors is kept.
pub open spec fn remove_names(hs: Seq<HeaderView>, names: Seq<Seq<char>>) -> Seq<HeaderView>
    decreases hs.len(),
{
    if hs.len() == 0 {
        Seq::empty()
    } else {
        let rest = remove_names(hs.drop_last(), names);
        if name_matches(hs.last().name, names) {
            rest
        } else {
            rest.push(hs.last())
        }
    }
}

/// What is wrong with a header a middleware asked to add.
#[derive(Clone, Copy, PartialEq, Eq, Structural, Debug)]
pub enum HeaderError {
    /// The name, after lower-casing, is empty or holds a character that is
    /// not a token character.
    InvalidName,
    /// The value holds a control character.
    InvalidValue,
}

/// What is wrong with `h`, checked name first.
pub open spec fn header_problem(h: HeaderView) -> Option<HeaderError> {
    if !valid_header_name(lower(h.name)) {
        Some(HeaderError::InvalidName)
    } else if !valid_header_value(h.value) {
        Some(HeaderError::InvalidValue)
    } else {
        None
    }
}

/// The first problem in `hs`, front first.
pub open spec fn first_problem(hs: Seq<HeaderView>) -> Option<HeaderError>
    decreases hs.len(),
{
    if hs.len() == 0 {
        None
    } else if header_problem(hs.first()) is Some {
        header_problem(hs.first())
    } else {
        first_problem(hs.drop_first())
    }
}

/// The stored name of the `Content-Length` header, which is never copied
/// verbatim across phases.
pub open spec fn content_length_name() -> Seq<char> {
    "content-length"@
}

/// A copy of one header entry.
pub fn dup_header(h: &Header) -> (r: Header)
    ensures
        r@ == h@,
{
    Header { name: h.name.clone(), value: h.value.clone() }
}

/// A copy of a header list.
pub fn dup_headers(hs: &Vec<Header>) -> (r: Vec<Header>)
    ensures
        r.deep_view() == hs.deep_view(),
{
    let mut r: Vec<Header> = Vec::new();
    let mut i: usize = 0;
    while i < hs.len()
        invariant
            i <= hs.len(),
            r.deep_view() =~= hs.deep_view().take(i as int),
        decreases hs.len() - i,
    {
        let ghost prev = r.deep_view();
        r.push(dup_header(&hs[i]));
        proof {
            assert(r.deep_view() =~= prev.push(hs.deep_view()[i as int]));
        }
        i = i + 1;
    }
    proof {
        assert(hs.deep_view().take(hs.len() as int) =~= hs.deep_view());
    }
    r
}

/// The first problem in a header list, without changing anything.
pub fn headers_problem(hs: &Vec<Header>) -> (r: Option<HeaderError>)
    ensures
        r == first_problem(hs.deep_view()),
{
    let mut i: usize = 0;
    proof {
        assert(hs.deep_view().skip(0) =~= hs.deep_view());
    }
    while i < hs.len()
        invariant
            i <= hs.len(),
            first_problem(hs.deep_view()) == first_problem(hs.deep_view().skip(i as int)),
        decreases hs.len() - i,
    {
        proof {
            assert(hs.deep_view().skip(i as int).first() == hs.deep_view()[i as int]);
            assert(hs.deep_view().skip(i as int).drop_first() =~= hs.deep_view().skip(i + 1));
        }
        let ln = ascii_lower(hs[i].name.as_str());
        if !check_header_name(ln.as_str()) {
            return Some(HeaderError::InvalidName);
        }
        if !check_header_value(hs[i].value.as_str()) {
            return Some(HeaderError::InvalidValue);
        }
        i = i + 1;
    }
    proof {
        assert(hs.deep_view().skip(hs.len() as int) =~= Seq::<HeaderView>::empty());
    }
    None
}

/// A copy of a header list with every name lower-cased.
pub fn lower_all_names(hs: &Vec<Header>) -> (r: Vec<Header>)
    ensures
        r.deep_view() == lower_headers(hs.deep_view()),
{
    let mut r: Vec<Header> = Vec::new();
    let mut i: usize = 0;
    while i < hs.len()
        invariant
            i <= hs.len(),
            r.deep_view() =~= lower_headers(hs.deep_view().take(i as int)),
        decreases hs.len() - i,
    {
        let ghost prev = r.deep_view();
        r.push(Header { name: ascii_lower(hs[i].name.as_str()), value: hs[i].value.clone() });
        proof {
            assert(r.deep_view() =~= prev.push(lower_header(hs.deep_view()[i as int])));
            assert(lower_headers(hs.deep_view().take(i + 1)) =~= lower_headers(
                hs.deep_view().take(i as int),
            ).push(lower_header(hs.deep_view()[i as int])));
        }
        i = i + 1;
    }
    proof {
        assert(hs.deep_view().take(hs.len() as int) =~= hs.deep_view());
    }
    r
}

/// Whether `n` equals one of `names` modulo ASCII case.
fn matches_any(n: &String, names: &Vec<String>) -> (r: bool)
    ensures
        r == name_matches(n@, names.deep_view()),
{
    let ln = ascii_lower(n.as_str());
    let mut k: usize = 0;
    while k < names.len()
        invariant
            k <= names.len(),
            ln@ == lower(n@),
            forall|j: int| 0 <= j < k ==> lower(names.deep_view()[j]) != lower(n@),
        decreases names.len() - k,
    {
        let lk = ascii_lower(names[k].as_str());
        if lk.eq(&ln) {
            proof {
                assert(lower(names.deep_view()[k as int]) == lower(n@));
            }
            return true;
        }
        k = k + 1;
    }
    false
}

/// The header list with every entry named in `names` removed,
/// case-insensitively; order is kept.
pub fn remove_headers_named(hs: &Vec<Header>, names: &Vec<String>) -> (r: Vec<Header>)
    ensures
        r.deep_view() == remove_names(hs.deep_view(), names.deep_view()),
{
    let mut r: Vec<Header> = Vec::new();
    let mut i: usize = 0;
    while i < hs.len()
        invariant
            i <= hs.len(),
            r.deep_view() =~= remove_names(hs.deep_view().take(i as int), names.deep_view()),
        decreases hs.len() - i,
    {
        proof {
            assert(hs.deep_view().take(i + 1).drop_last() =~= hs.deep_view().take(i as int));
            assert(hs.deep_view().take(i + 1).last() == hs.deep_view()[i as int]);
        }
        if !matches_any(&hs[i].name, names) {
            let ghost prev = r.deep_view();
            r.push(dup_header(&hs[i]));
            proof {
                assert(r.deep_view() =~= prev.push(hs.deep_view()[i as int]));
            }
        }
        i = i + 1;
    }
    proof {
        assert(hs.deep_view().take(hs.len() as int) =~= hs.deep_view());
    }
    r
}

/// Appends `added` to `hs` with names lower-cased, after validating every
/// entry. On a malformed entry nothing is appended and the first problem is
/// returned.
pub fn add_headers_checked(hs: &mut Vec<Header>, added: &Vec<Header>) -> (r: Result<
    (),
    HeaderError,
>)
    ensures
        r matches Err(e) ==> first_problem(added.deep_view()) == Some(e) && final(hs).deep_view()
            == old(hs).deep_view(),
        r is Ok ==> first_problem(added.deep_view()) is None && final(hs).deep_view() == old(
            hs,
        ).deep_view() + lower_headers(added.deep_view()),
{
    let mut lowered: Vec<Header> = Vec::new();
    let mut i: usize = 0;
    proof {
        assert(added.deep_view().skip(0) =~= added.deep_view());
    }
    while i < added.len()
        invariant
            i <= added.len(),
            lowered.deep_view() =~= lower_headers(added.deep_view().take(i as int)),
            first_problem(added.deep_view()) == first_problem(added.deep_view().skip(i as int)),
        decreases added.len() - i,
    {
        proof {
            assert(added.deep_view().skip(i as int).first() == added.deep_view()[i as int]);
            assert(added.deep_view().skip(i as int).drop_first() =~= added.deep_view().skip(
                i + 1,
            ));
        }
        let ln = ascii_lower(added[i].name.as_str());
        if !check_header_name(ln.as_str()) {
            return Err(HeaderError::InvalidName);
        }
        if !check_header_value(added[i].value.as_str()) {
            return Err(HeaderError::InvalidValue);
        }
        let ghost prevl = lowered.deep_view();
        lowered.push(Header { name: ln, value: added[i].value.clone() });
        proof {
            assert(lowered.deep_view() =~= prevl.push(
                lower_header(added.deep_view()[i as int]),
            ));
            assert(lower_headers(added.deep_view().take(i + 1)) =~= lower_headers(
                added.deep_view().take(i as int),
            ).push(lower_header(added.deep_view()[i as int])));
        }
        i = i + 1;
    }
    proof {
        assert(added.deep_view().take(added.len() as int) =~= added.deep_view());
        assert(added.deep_view().skip(added.len() as int) =~= Seq::<HeaderView>::empty());
    }
    let ghost pre = hs.deep_view();
    let mut j: usize = 0;
    while j < lowered.len()
        invariant
            j <= lowered.len(),
            hs.deep_view() =~= pre + lowered.deep_view().take(j as int),
        decreases lowered.len() - j,
    {
        let ghost prevh = hs.deep_view();
        hs.push(dup_header(&lowered[j]));
        proof {
            assert(hs.deep_view() =~= prevh.push(lowered.deep_view()[j as int]));
        }
        j = j + 1;
    }
    proof {
        assert(lowered.deep_view().take(lowered.len() as int) =~= lowered.deep_view());
    }
    Ok(())
}

} // verus!

verus! {

/// A header whose stored name is already lower-cased.
pub open spec fn name_lowered(h: HeaderView) -> bool {
    lower(h.name) == h.name
}

/// Every stored name is lower-cased.
pub open spec fn all_lowered(hs: Seq<HeaderView>) -> bool {
    forall|i: int| 0 <= i < hs.len() ==> name_lowered(#[trigger] hs[i])
}

/// ASCII lower-casing is idempotent.
pub proof fn lemma_lower_idempotent(s: Seq<char>)
    ensures
        lower(lower(s)) == lower(s),
{
    assert forall|i: int| 0 <= i < s.len() implies crate::strutil::lower_char(
        #[trigger] lower(s)[i],
    ) == lower(s)[i] by {
        let c = s[i];
        let u = c as u32;
        if 65 <= u && u <= 90 {
            assert((((u + 32) as u32) as char) as u32 == u + 32);
        }
    }
    assert(lower(lower(s)) =~= lower(s));
}

/// A concatenation of header lists is problem-free exactly when both parts
/// are.
pub proof fn lemma_first_problem_concat(a: Seq<HeaderView>, b: Seq<HeaderView>)
    ensures
        first_problem(a + b) is None <==> (first_problem(a) is None && first_problem(b) is None),
    decreases a.len(),
{
    if a.len() == 0 {
        assert(a + b =~= b);
    } else {
        assert((a + b).first() == a.first());
        assert((a + b).drop_first() =~= a.drop_first() + b);
        lemma_first_problem_concat(a.drop_first(), b);
    }
}

/// Removal keeps every surviving name as it was stored.
pub proof fn lemma_remove_names_lowered(hs: Seq<HeaderView>, names: Seq<Seq<char>>)
    requires
        all_lowered(hs),
    ensures
        all_lowered(remove_names(hs, names)),
    decreases hs.len(),
{
    if hs.len() > 0 {
        assert(all_lowered(hs.drop_last()));
        lemma_remove_names_lowered(hs.drop_last(), names);
    }
}

/// Lower-casing leaves every name lower-cased.
pub proof fn lemma_lower_headers_lowered(hs: Seq<HeaderView>)
    ensures
        all_lowered(lower_headers(hs)),
{
    assert forall|i: int| 0 <= i < lower_headers(hs).len() implies name_lowered(
        #[trigger] lower_headers(hs)[i],
    ) by {
        lemma_lower_idempotent(hs[i].name);
    }
}

/// Lower-casing the names of a problem-free header list keeps it
/// problem-free.
pub proof fn lemma_lower_headers_problem(hs: Seq<HeaderView>)
    ensures
        first_problem(hs) is None ==> first_problem(lower_headers(hs)) is None,
    decreases hs.len(),
{
    if hs.len() > 0 {
        lemma_lower_idempotent(hs.first().name);
        assert(lower_headers(hs).first() == lower_header(hs.first()));
        assert(lower_headers(hs).drop_first() =~= lower_headers(hs.drop_first()));
        lemma_lower_headers_problem(hs.drop_first());
    }
}

} // verus!
