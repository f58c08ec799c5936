//! The integrity check: every fingerprint that the ledger records must
//! still be the fingerprint of a script in the registry.

use vstd::prelude::*;

verus! {

/// A recorded fingerprint that no script of the registry has. `position`
/// is the fingerprint's place in the listing of the ledger that was
/// checked, which need not be the place its script once had in the
/// registry.
#[derive(Debug, PartialEq, Eq)]
pub struct IntegrityFault {
    pub position: usize,
    pub fingerprint: String,
}

/// Whether every fingerprint of `applied` occurs in `known`.
pub open spec fn all_known(applied: Seq<Seq<char>>, known: Seq<Seq<char>>) -> bool {
    forall|i: int| 0 <= i < applied.len() ==> known.contains(#[trigger] applied[i])
}

/// Whether `position` is the first place in `applied` whose fingerprint
/// does not occur in `known`.
pub open spec fn first_unknown(
    applied: Seq<Seq<char>>,
    known: Seq<Seq<char>>,
    position: int,
) -> bool {
    &&& 0 <= position < applied.len()
    &&& !known.contains(applied[position])
    &&& all_known(applied.take(position), known)
}

/// The first place at or after `from` in `items` whose fingerprint does
/// not occur in `among`; the length of `items` if there is none.
pub open spec fn first_missing(items: Seq<Seq<char>>, among: Seq<Seq<char>>, from: int) -> int
    decreases items.len() - from,
{
    if from < 0 || from >= items.len() {
        items.len() as int
    } else if !among.contains(items[from]) {
        from
    } else {
        first_missing(items, among, from + 1)
    }
}

/// What `first_missing` finds: everything from `from` up to the place it
/// returns occurs in `among`, and the fingerprint at that place, if it is
/// one, does not.
pub proof fn lemma_first_missing(items: Seq<Seq<char>>, among: Seq<Seq<char>>, from: int)
    requires
        0 <= from <= items.len(),
    ensures
        from <= first_missing(items, among, from) <= items.len(),
        first_missing(items, among, from) < items.len() ==> !among.contains(
            items[first_missing(items, among, from)],
        ),
        forall|i: int|
            from <= i < first_missing(items, among, from) ==> among.contains(#[trigger] items[i]),
    decreases items.len() - from,
{
    if from < items.len() && among.contains(items[from]) {
        lemma_first_missing(items, among, from + 1);
    }
}

/// Whether `list` holds `fingerprint`.
pub fn holds(list: &Vec<String>, fingerprint: &String) -> (found: bool)
    ensures
        found == list.deep_view().contains(fingerprint@),
{
    let mut i: usize = 0;
    while i < list.len()
        invariant
            i <= list.len(),
            forall|j: int| 0 <= j < i ==> list[j]@ != fingerprint@,
        decreases list.len() - i,
    {
        if list[i] == *fingerprint {
            assert(list.deep_view()[i as int] == fingerprint@);
            return true;
        }
        i += 1;
    }
    assert forall|j: int| 0 <= j < list.deep_view().len() implies list.deep_view()[j]
        != fingerprint@ by {
        assert(list.deep_view()[j] == list[j]@);
    }
    false
}

/// Checks the fingerprints listed from the ledger against those of the
/// registry. Succeeds exactly when each of `applied` occurs in `known`;
/// otherwise reports the first of `applied` that does not.
pub fn validate(applied: &Vec<String>, known: &Vec<String>) -> (checked: Result<
    (),
    IntegrityFault,
>)
    ensures
        checked is Ok <==> all_known(applied.deep_view(), known.deep_view()),
        checked is Ok <==> first_missing(applied.deep_view(), known.deep_view(), 0)
            == applied.len(),
        checked matches Err(fault) ==> fault.position == first_missing(
            applied.deep_view(),
            known.deep_view(),
            0,
        ),
        checked matches Err(fault) ==> first_unknown(
            applied.deep_view(),
            known.deep_view(),
            fault.position as int,
        ) && fault.fingerprint@ == applied.deep_view()[fault.position as int],
{
    let ghost a = applied.deep_view();
    let ghost k = known.deep_view();
    let mut i: usize = 0;
    while i < applied.len()
        invariant
            i <= applied.len(),
            a == applied.deep_view(),
            k == known.deep_view(),
            all_known(a.take(i as int), k),
            first_missing(a, k, 0) == first_missing(a, k, i as int),
        decreases applied.len() - i,
    {
        assert(a[i as int] == applied[i as int]@);
        if !holds(known, &applied[i]) {
            proof {
                lemma_unknown_fails(a, k, i as int);
            }
            return Err(IntegrityFault { position: i, fingerprint: applied[i].clone() });
        }
        assert forall|j: int| 0 <= j < a.take(i + 1).len() implies k.contains(
            #[trigger] a.take(i + 1)[j],
        ) by {
            if j < i {
                assert(a.take(i as int)[j] == a[j]);
            } else {
                assert(a[j] == applied[i as int]@);
            }
        }
        i += 1;
    }
    assert(a.take(i as int) =~= a);
    Ok(())
}

/// A listing with an unknown fingerprint is not all known.
pub proof fn lemma_unknown_fails(applied: Seq<Seq<char>>, known: Seq<Seq<char>>, p: int)
    requires
        0 <= p < applied.len(),
        !known.contains(applied[p]),
    ensures
        !all_known(applied, known),
{
}

} // verus!
