//! The order of texts, and lists sorted by it.
use vstd::prelude::*;

use crate::reconcile_report::ReconcileReport;
use crate::text;

verus! {

/// Whether `a` stands before `b` or is the same text: the first character that differs
/// decides, and a text stands before its continuations. This is also the order of the
/// UTF-8 bytes.
pub open spec fn at_most(a: Seq<char>, b: Seq<char>) -> bool
    decreases a.len(),
{
    ||| a.len() == 0
    ||| b.len() > 0 && (a[0] as int) < (b[0] as int)
    ||| b.len() > 0 && a[0] == b[0] && at_most(a.skip(1), b.skip(1))
}

/// Any two texts stand in order one way or the other.
pub proof fn order_is_total(a: Seq<char>, b: Seq<char>)
    ensures
        at_most(a, b) || at_most(b, a),
    decreases a.len(),
{
    if a.len() > 0 && b.len() > 0 && a[0] == b[0] {
        order_is_total(a.skip(1), b.skip(1));
    }
}

/// The order is transitive.
pub proof fn order_is_transitive(a: Seq<char>, b: Seq<char>, c: Seq<char>)
    requires
        at_most(a, b),
        at_most(b, c),
    ensures
        at_most(a, c),
    decreases a.len(),
{
    if a.len() > 0 && a[0] == b[0] && b[0] == c[0] {
        order_is_transitive(a.skip(1), b.skip(1), c.skip(1));
    }
}

/// Two texts that stand in order both ways are the same.
pub proof fn order_is_antisymmetric(a: Seq<char>, b: Seq<char>)
    requires
        at_most(a, b),
        at_most(b, a),
    ensures
        a == b,
    decreases a.len(),
{
    if a.len() > 0 {
        order_is_antisymmetric(a.skip(1), b.skip(1));
        assert(a =~= seq![a[0]] + a.skip(1));
        assert(b =~= seq![b[0]] + b.skip(1));
    } else {
        assert(a =~= b);
    }
}

/// Whether `a` stands before `b` or is the same text.
pub fn in_order(a: &str, b: &str) -> (r: bool)
    ensures
        r == at_most(a@, b@),
{
    let left = text::characters(a);
    let right = text::characters(b);
    let mut i: usize = 0;
    assert(a@.skip(0) =~= a@ && b@.skip(0) =~= b@);
    while i < left.len() && i < right.len()
        invariant
            left@ == a@,
            right@ == b@,
            i <= left@.len(),
            i <= right@.len(),
            at_most(a@, b@) == at_most(a@.skip(i as int), b@.skip(i as int)),
        decreases left@.len() - i,
    {
        assert(a@.skip(i as int)[0] == left@[i as int]);
        assert(b@.skip(i as int)[0] == right@[i as int]);
        let x: char = left[i];
        let y: char = right[i];
        if x != y {
            return x < y;
        }
        assert(a@.skip(i as int).skip(1) =~= a@.skip(i + 1));
        assert(b@.skip(i as int).skip(1) =~= b@.skip(i + 1));
        i += 1;
    }
    i == left.len()
}

/// Something that a list is sorted by the name of.
pub trait Named {
    spec fn sort_name(&self) -> Seq<char>;

    fn name_text(&self) -> (r: &str)
        ensures
            r@ == self.sort_name(),
    ;
}

impl Named for String {
    open spec fn sort_name(&self) -> Seq<char> {
        self@
    }

    fn name_text(&self) -> (r: &str) {
        self.as_str()
    }
}

impl Named for ReconcileReport {
    open spec fn sort_name(&self) -> Seq<char> {
        self.bucket_name@
    }

    fn name_text(&self) -> (r: &str) {
        self.bucket_name.as_str()
    }
}

/// Whether the names stand in order.
pub open spec fn sorted<T: Named>(items: Seq<T>) -> bool {
    forall|i: int, j: int|
        0 <= i < j < items.len() ==> at_most(
            (#[trigger] items[i]).sort_name(),
            (#[trigger] items[j]).sort_name(),
        )
}

fn place<T: Named>(items: &Vec<T>, item: &T) -> (r: usize)
    requires
        sorted(items@),
    ensures
        r <= items@.len(),
        forall|j: int| 0 <= j < r ==> at_most((#[trigger] items@[j]).sort_name(), item.sort_name()),
        forall|j: int|
            r <= j < items@.len() ==> at_most(item.sort_name(), (#[trigger] items@[j]).sort_name()),
{
    let mut i: usize = 0;
    while i < items.len()
        invariant
            sorted(items@),
            i <= items@.len(),
            forall|j: int|
                0 <= j < i ==> at_most((#[trigger] items@[j]).sort_name(), item.sort_name()),
        decreases items@.len() - i,
    {
        if in_order(item.name_text(), items[i].name_text()) {
            assert forall|j: int| i <= j < items@.len() implies at_most(
                item.sort_name(),
                (#[trigger] items@[j]).sort_name(),
            ) by {
                if j > i {
                    order_is_transitive(
                        item.sort_name(),
                        items@[i as int].sort_name(),
                        items@[j].sort_name(),
                    );
                }
            }
            return i;
        }
        proof {
            order_is_total(item.sort_name(), items@[i as int].sort_name());
        }
        i += 1;
    }
    i
}

/// Sorts a list by name.
pub fn sort_by_name<T: Named>(items: Vec<T>) -> (r: Vec<T>)
    ensures
        sorted(r@),
        r@.to_multiset() == items@.to_multiset(),
{
    let mut rest = items;
    let mut out: Vec<T> = Vec::new();
    proof {
        broadcast use vstd::seq_lib::group_to_multiset_ensures;

        assert(out@.to_multiset().add(rest@.to_multiset()) =~= items@.to_multiset());
    }
    while rest.len() > 0
        invariant
            sorted(out@),
            out@.to_multiset().add(rest@.to_multiset()) == items@.to_multiset(),
        decreases rest@.len(),
    {
        let ghost before = rest@;
        let ghost sorted_before = out@;
        match rest.pop() {
            Some(item) => {
                let i = place(&out, &item);
                out.insert(i, item);
                proof {
                    broadcast use vstd::seq_lib::group_to_multiset_ensures;

                    vstd::seq_lib::to_multiset_insert(sorted_before, i as int, item);
                    assert(before =~= rest@.push(item));
                    assert(out@.to_multiset().add(rest@.to_multiset())
                        =~= sorted_before.to_multiset().add(before.to_multiset()));
                    assert forall|a: int, b: int| 0 <= a < b < out@.len() implies at_most(
                        (#[trigger] out@[a]).sort_name(),
                        (#[trigger] out@[b]).sort_name(),
                    ) by {
                        if a < i && b > i {
                            assert(sorted_before[a] == out@[a] && sorted_before[b - 1] == out@[b]);
                        } else if a > i {
                            assert(sorted_before[a - 1] == out@[a]);
                            assert(sorted_before[b - 1] == out@[b]);
                        } else if a == i {
                            assert(sorted_before[b - 1] == out@[b]);
                        } else {
                            assert(sorted_before[a] == out@[a]);
                            if b < i {
                                assert(sorted_before[b] == out@[b]);
                            }
                        }
                    }
                }
            },
            None => {},
        }
    }
    proof {
        broadcast use vstd::seq_lib::group_to_multiset_ensures;

        assert(rest@ =~= Seq::<T>::empty());
        assert(out@.to_multiset().add(rest@.to_multiset()) =~= out@.to_multiset());
    }
    out
}

/// The first character that differs decides on the order, by its code point: what stands before
/// it and behind it has no influence.
pub proof fn first_difference_decides(
    common: Seq<char>,
    x: char,
    a: Seq<char>,
    y: char,
    b: Seq<char>,
)
    requires
        (x as int) < (y as int),
    ensures
        at_most(common + seq![x] + a, common + seq![y] + b),
        !at_most(common + seq![y] + b, common + seq![x] + a),
    decreases common.len(),
{
    let low = common + seq![x] + a;
    let high = common + seq![y] + b;
    if common.len() > 0 {
        first_difference_decides(common.skip(1), x, a, y, b);
        assert(low.skip(1) =~= common.skip(1) + seq![x] + a);
        assert(high.skip(1) =~= common.skip(1) + seq![y] + b);
        assert(low[0] == common[0] && high[0] == common[0]);
    } else {
        assert(low[0] == x && high[0] == y);
    }
}

/// A text stands before every longer text that begins with it, and not behind it.
pub proof fn text_stands_before_its_continuations(a: Seq<char>, more: Seq<char>)
    ensures
        at_most(a, a + more),
        more.len() > 0 ==> !at_most(a + more, a),
    decreases a.len(),
{
    if a.len() > 0 {
        text_stands_before_its_continuations(a.skip(1), more);
        assert((a + more).skip(1) =~= a.skip(1) + more);
    }
}

} // verus!
