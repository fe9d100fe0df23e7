//! Which tables a database dump covers: every table when no name is asked
//! for, else those whose lower-case name is asked for.

use vstd::prelude::*;

use crate::text::{ascii_lower, contains_text};

verus! {

/// A table of a module's database, as a dump names it.
pub trait DumpTable: Sized {
    /// The table's name, as its `Display` form writes it.
    spec fn spec_name(self) -> Seq<char>;

    /// The table's name in lower case.
    fn lowercase_name(&self) -> (r: String)
        ensures
            r@ == ascii_lower(self.spec_name()),
    ;
}

/// Whether a database dump that asks for `names` covers table `p`: it does
/// when no name is asked for or when the table's lower-case name is among
/// them.
pub open spec fn table_selected<P: DumpTable>(names: Seq<String>, p: P) -> bool {
    names.len() == 0 || exists|i: int|
        0 <= i < names.len() && (#[trigger] names[i])@ == ascii_lower(p.spec_name())
}

/// The tables of `all` that a dump asking for `names` covers, in order.
pub open spec fn spec_selected_tables<P: DumpTable>(all: Seq<P>, names: Seq<String>) -> Seq<P> {
    all.filter(|p: P| table_selected(names, p))
}

/// Which tables a dump covers, stated over the asked names: a covered table
/// is one of the module's tables; when no name is asked, every table is
/// covered; a table whose lower-case name is asked at any position of the
/// list is covered; and when names are asked but none of them is the
/// table's lower-case name, the table is not covered.
pub proof fn law_dump_covers_exactly_the_asked_tables<P: DumpTable>(
    all: Seq<P>,
    names: Seq<String>,
    p: P,
    i: int,
)
    ensures
        spec_selected_tables(all, names).contains(p) ==> all.contains(p),
        names.len() == 0 && all.contains(p) ==> spec_selected_tables(all, names).contains(p),
        all.contains(p) && 0 <= i < names.len() && names[i]@ == ascii_lower(p.spec_name())
            ==> spec_selected_tables(all, names).contains(p),
        names.len() > 0 && (forall|j: int|
            0 <= j < names.len() ==> (#[trigger] names[j])@ != ascii_lower(p.spec_name()))
            ==> !spec_selected_tables(all, names).contains(p),
{
    let pred = |q: P| table_selected(names, q);
    let sel = all.filter(pred);
    if sel.contains(p) {
        all.lemma_filter_contains_rev(pred, p);
        let j = choose|j: int| 0 <= j < sel.len() && sel[j] == p;
        all.lemma_filter_pred(pred, j);
        assert(table_selected(names, p));
    }
    if all.contains(p) {
        let k = choose|k: int| 0 <= k < all.len() && all[k] == p;
        if names.len() == 0 {
            all.lemma_filter_contains(pred, k);
        }
        if 0 <= i < names.len() && names[i]@ == ascii_lower(p.spec_name()) {
            assert(table_selected(names, p));
            all.lemma_filter_contains(pred, k);
        }
    }
}

/// The tables of `all` that a database dump asking for `prefix_names`
/// covers, in their order.
pub fn select_tables<P: DumpTable + Copy>(all: &Vec<P>, prefix_names: &Vec<String>) -> (r: Vec<P>)
    ensures
        r@ == spec_selected_tables(all@, prefix_names@),
        forall|q: P| #[trigger] r@.contains(q) ==> all@.contains(q),
        prefix_names@.len() == 0 ==> forall|q: P| all@.contains(q) ==> #[trigger] r@.contains(q),
        forall|i: int, q: P|
            #![trigger r@.contains(q), prefix_names@[i]]
            0 <= i < prefix_names@.len() && all@.contains(q) && prefix_names@[i]@ == ascii_lower(
                q.spec_name(),
            ) ==> r@.contains(q),
        prefix_names@.len() > 0 ==> forall|q: P|
            #[trigger] r@.contains(q) ==> exists|i: int|
                0 <= i < prefix_names@.len() && (#[trigger] prefix_names@[i])@ == ascii_lower(
                    q.spec_name(),
                ),
{
    let ghost pred = |p: P| table_selected(prefix_names@, p);
    let mut r: Vec<P> = Vec::new();
    let mut i: usize = 0;
    while i < all.len()
        invariant
            i <= all@.len(),
            pred == (|p: P| table_selected(prefix_names@, p)),
            r@ == all@.take(i as int).filter(pred),
        decreases all@.len() - i,
    {
        let p = all[i];
        let name = p.lowercase_name();
        let chosen = prefix_names.len() == 0 || contains_text(prefix_names, &name);
        proof {
            reveal_with_fuel(Seq::filter, 1);
            assert(all@.take(i + 1).drop_last() =~= all@.take(i as int));
        }
        if chosen {
            r.push(p);
        }
        i = i + 1;
    }
    assert(all@.take(all@.len() as int) =~= all@);
    proof {
        assert forall|q: P| #[trigger] r@.contains(q) implies all@.contains(q) by {
            law_dump_covers_exactly_the_asked_tables(all@, prefix_names@, q, 0);
        }
        assert forall|q: P|
            prefix_names@.len() == 0 && all@.contains(q) implies #[trigger] r@.contains(q) by {
            law_dump_covers_exactly_the_asked_tables(all@, prefix_names@, q, 0);
        }
        assert forall|i: int, q: P|
            #![trigger r@.contains(q), prefix_names@[i]]
            0 <= i < prefix_names@.len() && all@.contains(q) && prefix_names@[i]@ == ascii_lower(
                q.spec_name(),
            ) implies r@.contains(q) by {
            law_dump_covers_exactly_the_asked_tables(all@, prefix_names@, q, i);
        }
        assert forall|q: P| prefix_names@.len() > 0 && #[trigger] r@.contains(q) implies exists|
            i: int,
        |
            0 <= i < prefix_names@.len() && (#[trigger] prefix_names@[i])@ == ascii_lower(
                q.spec_name(),
            ) by {
            law_dump_covers_exactly_the_asked_tables(all@, prefix_names@, q, 0);
        }
    }
    r
}

} // verus!
