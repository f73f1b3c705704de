//! The line items of an order and the arithmetic of their amounts.
//!
//! An order's lines are modelled as a sequence of [`LineView`]s in which no
//! product occurs twice, so the sequence stands for a mapping from products to
//! quantities that also remembers the order in which products were added.

use vstd::prelude::*;
use crate::product::{Product, ProductView};

verus! {

/// One line of an order as a mathematical value: a product and how many of it.
pub struct LineView {
    pub product: ProductView,
    pub quantity: int,
}

/// One line of an order: a product and how many of it, which is at least one.
#[derive(Debug)]
pub struct LineItem {
    product: Product,
    quantity: i32,
}

impl View for LineItem {
    type V = LineView;

    closed spec fn view(&self) -> LineView {
        LineView { product: self.product@, quantity: self.quantity as int }
    }
}

impl LineItem {
    #[verifier::type_invariant]
    spec fn quantity_is_positive(self) -> bool {
        self.quantity > 0
    }

    pub(crate) fn new(product: Product, quantity: i32) -> (line: Self)
        requires
            quantity > 0,
        ensures
            line@ == (LineView { product: product@, quantity: quantity as int }),
    {
        LineItem { product, quantity }
    }

    pub fn product(&self) -> (product: &Product)
        ensures
            product@ == self@.product,
    {
        &self.product
    }

    pub fn quantity(&self) -> (quantity: i32)
        ensures
            quantity == self@.quantity,
            quantity > 0,
    {
        proof {
            use_type_invariant(self);
        }
        self.quantity
    }
}

/// The views of the lines of a vector, in the same order.
pub open spec fn views(lines: Seq<LineItem>) -> Seq<LineView> {
    lines.map_values(|line: LineItem| line@)
}

/// What one line costs: unit price times quantity.
pub open spec fn line_amount(line: LineView) -> int {
    line.product.price * line.quantity
}

/// The sum of what each line costs.
pub open spec fn total_amount(lines: Seq<LineView>) -> int
    decreases lines.len(),
{
    if lines.len() == 0 {
        0
    } else {
        total_amount(lines.drop_last()) + line_amount(lines.last())
    }
}

/// The index of the first line for `product`, if there is one.
pub open spec fn position(lines: Seq<LineView>, product: ProductView) -> Option<int>
    decreases lines.len(),
{
    if lines.len() == 0 {
        None
    } else if lines.first().product == product {
        Some(0)
    } else {
        match position(lines.drop_first(), product) {
            Some(i) => Some(i + 1),
            None => None,
        }
    }
}

/// How many of `product` the lines hold: 0 where they have no line for it.
pub open spec fn quantity_of(lines: Seq<LineView>, product: ProductView) -> int {
    match position(lines, product) {
        Some(i) => lines[i].quantity,
        None => 0,
    }
}

/// The lines after `quantity` more of `product` were added: its line grows by
/// `quantity` where there is one, else a new line is appended.
pub open spec fn added(lines: Seq<LineView>, product: ProductView, quantity: int) -> Seq<LineView> {
    match position(lines, product) {
        Some(i) => lines.update(i, LineView { product, quantity: lines[i].quantity + quantity }),
        None => lines.push(LineView { product, quantity }),
    }
}

/// The lines without the line for `product`; unchanged where there is none.
pub open spec fn removed(lines: Seq<LineView>, product: ProductView) -> Seq<LineView> {
    match position(lines, product) {
        Some(i) => lines.remove(i),
        None => lines,
    }
}

/// Every quantity fits in an `i32` and the total fits in an `i64`.
pub open spec fn representable(lines: Seq<LineView>) -> bool {
    &&& forall|i: int| 0 <= i < lines.len() ==> (#[trigger] lines[i]).quantity <= i32::MAX
    &&& total_amount(lines) <= i64::MAX
}

/// Every line has a positive quantity of a well-formed product.
pub open spec fn positive(lines: Seq<LineView>) -> bool {
    forall|i: int|
        0 <= i < lines.len() ==> (#[trigger] lines[i]).quantity > 0
            && lines[i].product.well_formed()
}

/// No product has two lines.
pub open spec fn distinct(lines: Seq<LineView>) -> bool {
    forall|i: int, j: int|
        0 <= i < j < lines.len() ==> (#[trigger] lines[i]).product != (#[trigger] lines[j]).product
}

/// What holds of the lines of every order.
pub open spec fn valid_lines(lines: Seq<LineView>) -> bool {
    &&& positive(lines)
    &&& distinct(lines)
    &&& representable(lines)
}

/// `position` finds the first line for the product, and finds none only where
/// no line is for it.
pub proof fn lemma_position(lines: Seq<LineView>, product: ProductView)
    ensures
        match position(lines, product) {
            Some(i) => {
                &&& 0 <= i < lines.len()
                &&& lines[i].product == product
                &&& forall|j: int| 0 <= j < i ==> (#[trigger] lines[j]).product != product
            },
            None => forall|j: int|
                0 <= j < lines.len() ==> (#[trigger] lines[j]).product != product,
        },
    decreases lines.len(),
{
    if lines.len() > 0 && lines.first().product != product {
        let rest = lines.drop_first();
        lemma_position(rest, product);
        let end = match position(rest, product) {
            Some(i) => i + 1,
            None => lines.len() as int,
        };
        assert forall|j: int| 0 <= j < end implies (#[trigger] lines[j]).product != product by {
            if j > 0 {
                assert(lines[j] == rest[j - 1]);
            }
        }
    }
}

/// A line at index `i` for `product` with none before it is the one that
/// `position` finds.
pub proof fn lemma_position_is(lines: Seq<LineView>, product: ProductView, i: int)
    requires
        0 <= i < lines.len(),
        lines[i].product == product,
        forall|j: int| 0 <= j < i ==> (#[trigger] lines[j]).product != product,
    ensures
        position(lines, product) == Some(i),
{
    lemma_position(lines, product);
}

/// Where no line is for `product`, `position` finds none.
pub proof fn lemma_position_none(lines: Seq<LineView>, product: ProductView)
    requires
        forall|j: int| 0 <= j < lines.len() ==> (#[trigger] lines[j]).product != product,
    ensures
        position(lines, product) is None,
{
    lemma_position(lines, product);
}

/// Appending a line raises the total by what that line costs.
pub proof fn lemma_total_push(lines: Seq<LineView>, line: LineView)
    ensures
        total_amount(lines.push(line)) == total_amount(lines) + line_amount(line),
{
    assert(lines.push(line).drop_last() =~= lines);
}

/// Replacing a line changes the total by the difference of the two lines.
pub proof fn lemma_total_update(lines: Seq<LineView>, i: int, line: LineView)
    requires
        0 <= i < lines.len(),
    ensures
        total_amount(lines.update(i, line)) == total_amount(lines) - line_amount(lines[i])
            + line_amount(line),
    decreases lines.len(),
{
    let next = lines.update(i, line);
    if i == lines.len() - 1 {
        assert(next.drop_last() =~= lines.drop_last());
    } else {
        lemma_total_update(lines.drop_last(), i, line);
        assert(next.drop_last() =~= lines.drop_last().update(i, line));
    }
}

/// Taking a line out lowers the total by what that line cost.
pub proof fn lemma_total_remove(lines: Seq<LineView>, i: int)
    requires
        0 <= i < lines.len(),
    ensures
        total_amount(lines.remove(i)) == total_amount(lines) - line_amount(lines[i]),
    decreases lines.len(),
{
    if i < lines.len() - 1 {
        lemma_total_remove(lines.drop_last(), i);
        assert(lines.remove(i).drop_last() =~= lines.drop_last().remove(i));
    }
}

/// Where every line has a positive quantity of a well-formed product, no line
/// costs less than 0 or more than the total.
pub proof fn lemma_total_bounds(lines: Seq<LineView>, i: int)
    requires
        positive(lines),
        0 <= i < lines.len(),
    ensures
        0 <= line_amount(lines[i]) <= total_amount(lines),
    decreases lines.len(),
{
    let last = lines.last();
    assert(0 <= line_amount(last)) by (nonlinear_arith)
        requires
            last.quantity > 0,
            last.product.price >= 0,
    ;
    if i < lines.len() - 1 {
        lemma_total_bounds(lines.drop_last(), i);
    } else {
        lemma_total_not_negative(lines.drop_last());
    }
}

/// Where every line has a positive quantity of a well-formed product, the
/// total is not negative.
pub proof fn lemma_total_not_negative(lines: Seq<LineView>)
    requires
        positive(lines),
    ensures
        0 <= total_amount(lines),
    decreases lines.len(),
{
    if lines.len() > 0 {
        let last = lines.last();
        assert(0 <= line_amount(last)) by (nonlinear_arith)
            requires
                last.quantity > 0,
                last.product.price >= 0,
        ;
        lemma_total_not_negative(lines.drop_last());
    }
}

/// Adding `quantity` of a product raises the total by its price times
/// `quantity`, whether or not the product already had a line.
pub proof fn lemma_added_total(lines: Seq<LineView>, product: ProductView, quantity: int)
    ensures
        total_amount(added(lines, product, quantity)) == total_amount(lines) + product.price
            * quantity,
{
    lemma_position(lines, product);
    match position(lines, product) {
        Some(i) => {
            let grown = LineView { product, quantity: lines[i].quantity + quantity };
            lemma_total_update(lines, i, grown);
            let price = product.price as int;
            let held = lines[i].quantity;
            assert(price * (held + quantity) == price * held + price * quantity)
                by (nonlinear_arith);
        },
        None => {
            lemma_total_push(lines, LineView { product, quantity });
        },
    }
}

/// Removing a product lowers the total by its price times the quantity held.
pub proof fn lemma_removed_total(lines: Seq<LineView>, product: ProductView)
    ensures
        total_amount(removed(lines, product)) == total_amount(lines) - product.price
            * quantity_of(lines, product),
{
    lemma_position(lines, product);
    if let Some(i) = position(lines, product) {
        lemma_total_remove(lines, i);
    }
}

/// Adding a positive quantity of a well-formed product keeps the lines valid,
/// provided the result is representable.
pub proof fn lemma_added_valid(lines: Seq<LineView>, product: ProductView, quantity: int)
    requires
        valid_lines(lines),
        quantity > 0,
        product.well_formed(),
        representable(added(lines, product, quantity)),
    ensures
        valid_lines(added(lines, product, quantity)),
{
    lemma_position(lines, product);
    let next = added(lines, product, quantity);
    assert forall|a: int, b: int| 0 <= a < b < next.len() implies
        (#[trigger] next[a]).product != (#[trigger] next[b]).product
    by {}
}

/// Removing a product keeps the lines valid, and leaves no line for it.
pub proof fn lemma_removed_valid(lines: Seq<LineView>, product: ProductView)
    requires
        valid_lines(lines),
    ensures
        valid_lines(removed(lines, product)),
        position(removed(lines, product), product) is None,
{
    lemma_position(lines, product);
    lemma_removed_total(lines, product);
    let next = removed(lines, product);
    if let Some(i) = position(lines, product) {
        lemma_total_bounds(lines, i);
        assert forall|a: int| 0 <= a < next.len() implies
            (#[trigger] next[a]) == lines[if a < i { a } else { a + 1 }]
        by {}
    }
    lemma_position_none(next, product);
}

/// After adding `quantity` of `product`, the lines hold that much more of it
/// and as much as before of every other product.
pub proof fn lemma_added_quantity(
    lines: Seq<LineView>,
    product: ProductView,
    quantity: int,
    other: ProductView,
)
    ensures
        quantity_of(added(lines, product, quantity), other) == if other == product {
            quantity_of(lines, product) + quantity
        } else {
            quantity_of(lines, other)
        },
{
    lemma_position(lines, product);
    lemma_position(lines, other);
    let next = added(lines, product, quantity);
    assert forall|j: int| 0 <= j < lines.len() implies
        (#[trigger] next[j]).product == lines[j].product
    by {}
    match position(lines, other) {
        Some(k) => lemma_position_is(next, other, k),
        None => if other == product {
            lemma_position_is(next, other, lines.len() as int);
        } else {
            lemma_position_none(next, other);
        },
    }
}

/// After removing `product` from lines in which no product occurs twice, the
/// lines hold none of it and as much as before of every other product.
pub proof fn lemma_removed_quantity(lines: Seq<LineView>, product: ProductView, other: ProductView)
    requires
        distinct(lines),
    ensures
        quantity_of(removed(lines, product), other) == if other == product {
            0
        } else {
            quantity_of(lines, other)
        },
{
    lemma_position(lines, product);
    lemma_position(lines, other);
    let next = removed(lines, product);
    if let Some(i) = position(lines, product) {
        assert forall|a: int| 0 <= a < next.len() implies
            (#[trigger] next[a]) == lines[if a < i { a } else { a + 1 }]
        by {}
        match position(lines, other) {
            Some(k) if k != i => lemma_position_is(next, other, if k < i { k } else { k - 1 }),
            _ => lemma_position_none(next, other),
        }
    }
}

} // verus!
