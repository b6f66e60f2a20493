use vstd::prelude::*;

verus! {

/// The decimal digits of `n`, most significant first, without leading
/// zeros; zero itself is the single digit `0`.
pub open spec fn decimal_digits(n: nat) -> Seq<u8>
    decreases n,
{
    if n < 10 {
        seq![n as u8]
    } else {
        decimal_digits(n / 10).push((n % 10) as u8)
    }
}

/// The number that a sequence of decimal digits (most significant first) denotes.
pub open spec fn digits_value(ds: Seq<u8>) -> nat
    decreases ds.len(),
{
    if ds.len() == 0 {
        0
    } else {
        digits_value(ds.drop_last()) * 10 + ds.last() as nat
    }
}

/// Powers of ten.
pub open spec fn pow10(k: nat) -> nat
    decreases k,
{
    if k == 0 {
        1
    } else {
        10 * pow10((k - 1) as nat)
    }
}

/// A digit sequence as `decimal_digits` writes them: non-empty, every entry
/// below ten, and no leading zero unless it is the only digit.
pub open spec fn canonical_digits(ds: Seq<u8>) -> bool {
    &&& ds.len() >= 1
    &&& forall|i: int| 0 <= i < ds.len() ==> #[trigger] ds[i] < 10
    &&& ds.len() > 1 ==> ds[0] != 0
}

/// Reading back the digits of `n` gives `n`.
pub proof fn lemma_digits_value_of_decimal_digits(n: nat)
    ensures
        digits_value(decimal_digits(n)) == n,
    decreases n,
{
    if n >= 10 {
        lemma_digits_value_of_decimal_digits(n / 10);
        assert(decimal_digits(n).drop_last() =~= decimal_digits(n / 10));
        assert(decimal_digits(n).last() as nat == n % 10);
        assert((n / 10) * 10 + n % 10 == n);
        let ds = decimal_digits(n);
        assert(digits_value(ds) == digits_value(ds.drop_last()) * 10 + ds.last() as nat);
    } else {
        let ds = decimal_digits(n);
        assert(ds.drop_last() =~= Seq::<u8>::empty());
        assert(digits_value(ds.drop_last()) == 0);
        assert(ds.last() as nat == n);
        assert(digits_value(ds) == digits_value(ds.drop_last()) * 10 + ds.last() as nat);
    }
}

/// The digits of `n` are canonical, and the first one is zero only for zero.
pub proof fn lemma_decimal_digits_canonical(n: nat)
    ensures
        canonical_digits(decimal_digits(n)),
        decimal_digits(n)[0] == 0 <==> n == 0,
    decreases n,
{
    if n >= 10 {
        lemma_decimal_digits_canonical(n / 10);
        let ds = decimal_digits(n);
        assert forall|i: int| 0 <= i < ds.len() implies #[trigger] ds[i] < 10 by {
            if i < ds.len() - 1 {
                assert(ds[i] == decimal_digits(n / 10)[i]);
            }
        }
    }
}

/// A number below `10^k` has at most `k` digits.
pub proof fn lemma_decimal_digits_len_bound(n: nat, k: nat)
    requires
        k >= 1,
        n < pow10(k),
    ensures
        decimal_digits(n).len() <= k,
    decreases n,
{
    if n >= 10 {
        let k1 = (k - 1) as nat;
        if k1 == 0 {
            assert(pow10(k) == 10) by {
                assert(pow10(0) == 1);
            }
        } else {
            assert(n / 10 < pow10(k1)) by (nonlinear_arith)
                requires
                    n < 10 * pow10(k1),
            ;
            lemma_decimal_digits_len_bound(n / 10, k1);
        }
    }
}

/// The value of a digit sequence is at least its leading digit.
proof fn lemma_digits_value_at_least_first(ds: Seq<u8>)
    requires
        ds.len() >= 1,
    ensures
        digits_value(ds) >= ds[0],
    decreases ds.len(),
{
    if ds.len() > 1 {
        lemma_digits_value_at_least_first(ds.drop_last());
    } else {
        assert(ds.drop_last() =~= Seq::<u8>::empty());
    }
}

/// Every canonical digit sequence is the decimal writing of its value: the
/// writing of a number is unique.
pub proof fn lemma_canonical_digits_unique(ds: Seq<u8>)
    requires
        canonical_digits(ds),
    ensures
        decimal_digits(digits_value(ds)) == ds,
    decreases ds.len(),
{
    if ds.len() == 1 {
        assert(ds.drop_last() =~= Seq::<u8>::empty());
        assert(ds[0] < 10);
        assert(digits_value(ds.drop_last()) == 0);
        assert(digits_value(ds) == ds[0] as nat);
        assert(decimal_digits(ds[0] as nat) =~= seq![ds[0]]);
        assert(decimal_digits(digits_value(ds)) =~= ds);
    } else {
        let dl = ds.drop_last();
        assert(dl[0] == ds[0]);
        assert forall|i: int| 0 <= i < dl.len() implies #[trigger] dl[i] < 10 by {
            assert(dl[i] == ds[i]);
        }
        lemma_canonical_digits_unique(dl);
        lemma_digits_value_at_least_first(dl);
        let w = digits_value(dl);
        let last = ds.last();
        assert(last < 10) by {
            assert(ds[ds.len() - 1] < 10);
        }
        let v = w * 10 + last as nat;
        assert(v / 10 == w && v % 10 == last as nat && v >= 10) by (nonlinear_arith)
            requires
                v == w * 10 + last as nat,
                last < 10,
                w >= 1,
        ;
        assert(decimal_digits(v) =~= dl.push(last));
        assert(dl.push(last) =~= ds);
    }
}

/// No `u128` has more than 39 decimal digits.
pub proof fn lemma_u128_digits_at_most_39(n: u128)
    ensures
        decimal_digits(n as nat).len() <= 39,
{
    reveal_with_fuel(pow10, 40);
    assert(pow10(39) == 1000000000000000000000000000000000000000nat);
    lemma_decimal_digits_len_bound(n as nat, 39);
}

/// Splits `number` into its decimal digits, most significant first.
/// Zero gives the single digit `0`.
pub fn number_to_digits(number: u128) -> (digits: Vec<u8>)
    ensures
        digits@ == decimal_digits(number as nat),
        digits_value(digits@) == number,
        canonical_digits(digits@),
        1 <= digits.len() <= 39,
{
    proof {
        lemma_digits_value_of_decimal_digits(number as nat);
        lemma_decimal_digits_canonical(number as nat);
        lemma_u128_digits_at_most_39(number);
    }
    let mut digits: Vec<u8> = Vec::new();
    if number == 0 {
        digits.push(0u8);
        return digits;
    }
    let mut rest: u128 = number;
    while rest > 0
        invariant
            rest > 0 ==> decimal_digits(number as nat) == decimal_digits(rest as nat) + digits@,
            rest == 0 ==> decimal_digits(number as nat) == digits@,
        decreases rest,
    {
        let d: u8 = (rest % 10) as u8;
        proof {
            if rest >= 10 {
                assert(decimal_digits(rest as nat) == decimal_digits((rest / 10) as nat).push(d));
                assert(decimal_digits((rest / 10) as nat) + digits@.insert(0, d)
                    =~= decimal_digits(rest as nat) + digits@);
            } else {
                assert(decimal_digits(rest as nat) == seq![d]);
                assert(digits@.insert(0, d) =~= seq![d] + digits@);
            }
        }
        digits.insert(0, d);
        rest = rest / 10;
    }
    digits
}

/// The most digits a score can have: `u128::MAX` has 39 decimal digits.
pub const MAX_DIGITS: usize = 39;

/// Offset, inside one glyph quad of four vertices, of the `r`-th of the six
/// element indices that draw the quad as two triangles (0, 1, 2 and 1, 2, 3).
pub open spec fn quad_corner(r: int) -> int {
    if r == 0 {
        0
    } else if r == 1 || r == 3 {
        1
    } else if r == 2 || r == 4 {
        2
    } else {
        3
    }
}

/// The element indices that draw digit quads: quad `i` owns vertices
/// `4 * i .. 4 * i + 4` and is drawn by indices `6 * i .. 6 * i + 6`.
pub fn digit_quad_elements() -> (elements: Vec<u32>)
    ensures
        elements.len() == 6 * MAX_DIGITS,
        forall|j: int|
            0 <= j < elements.len() ==> #[trigger] elements[j] == 4 * (j / 6) + quad_corner(j % 6),
        forall|j: int| 0 <= j < elements.len() ==> #[trigger] elements[j] < 4 * MAX_DIGITS,
{
    let mut elements: Vec<u32> = Vec::new();
    let mut i: u32 = 0;
    while i < 39
        invariant
            i <= 39,
            elements.len() == 6 * i,
            forall|j: int|
                0 <= j < elements.len() ==> #[trigger] elements[j] == 4 * (j / 6) + quad_corner(j % 6),
        decreases 39 - i,
    {
        let start: u32 = i * 4;
        let ghost before = elements@;
        elements.push(start);
        elements.push(start + 1);
        elements.push(start + 2);
        elements.push(start + 1);
        elements.push(start + 2);
        elements.push(start + 3);
        proof {
            assert forall|j: int| 0 <= j < elements.len() implies #[trigger] elements[j] == 4 * (j / 6)
                + quad_corner(j % 6) by {
                if j < 6 * i {
                    assert(elements[j] == before[j]);
                } else {
                    assert(j / 6 == i as int);
                }
            }
        }
        i = i + 1;
    }
    proof {
        assert forall|j: int| 0 <= j < elements.len() implies #[trigger] elements[j] < 4 * MAX_DIGITS by {
            assert(elements[j] == 4 * (j / 6) + quad_corner(j % 6));
            assert(j / 6 < 39);
        }
    }
    elements
}

/// Where the glyph of a digit sits in the digit texture, as (column, row):
/// digits 0 to 4 fill the first row, 5 to 9 the second.
pub fn digit_glyph_cell(digit: u8) -> (cell: (u8, u8))
    requires
        digit <= 9,
    ensures
        digit <= 4 ==> cell == (digit, 0u8),
        digit >= 5 ==> cell == ((digit - 5) as u8, 1u8),
{
    if digit <= 4 {
        (digit, 0)
    } else {
        (digit - 5, 1)
    }
}

/// How digits are placed around the anchor of a displayed number.
#[derive(Clone, Copy, Debug, PartialEq, Eq, Structural)]
pub enum Align {
    Left,
    Center,
}

/// The countable part of a displayed number: which number it shows, how many
/// digits that takes, and how many element indices draw them.
pub struct DrawNumbersState {
    nb_digits: usize,
    draw_size: usize,
    current_number: u128,
    align: Align,
}

impl DrawNumbersState {
    /// The number shown.
    pub closed spec fn number(&self) -> u128 {
        self.current_number
    }

    /// Digit count and element count agree with the number shown.
    #[verifier::type_invariant]
    spec fn wf(&self) -> bool {
        &&& self.nb_digits == decimal_digits(self.current_number as nat).len()
        &&& self.draw_size == 6 * self.nb_digits
    }

    pub closed spec fn spec_align(&self) -> Align {
        self.align
    }

    /// How the digits are placed.
    pub fn align(&self) -> (a: Align)
        ensures
            a == self.spec_align(),
    {
        self.align
    }

    /// A display that shows zero. The digits to upload are returned beside it.
    pub fn new(align: Align) -> (res: (Self, Vec<u8>))
        ensures
            res.0.number() == 0,
            res.0.spec_align() == align,
            res.1@ == decimal_digits(0),
    {
        let digits = number_to_digits(0);
        let n = digits.len();
        (DrawNumbersState { nb_digits: n, draw_size: n * 6, current_number: 0, align }, digits)
    }

    /// Shows `nb`. When it differs from the number shown, returns the digits
    /// that the display must now draw; otherwise nothing changes.
    pub fn set_number(&mut self, nb: u128) -> (changed: Option<Vec<u8>>)
        ensures
            final(self).number() == nb,
            final(self).spec_align() == old(self).spec_align(),
            nb == old(self).number() ==> changed is None && *final(self) == *old(self),
            nb != old(self).number() ==> (changed matches Some(ds) && ds@ == decimal_digits(nb as nat)),
    {
        if self.current_number == nb {
            return None;
        }
        let digits = number_to_digits(nb);
        let n = digits.len();
        *self = DrawNumbersState { nb_digits: n, draw_size: n * 6, current_number: nb, align: self.align };
        Some(digits)
    }

    /// The number of digits drawn.
    pub fn nb_digits(&self) -> (n: usize)
        ensures
            n == decimal_digits(self.number() as nat).len(),
            1 <= n <= MAX_DIGITS,
    {
        proof {
            use_type_invariant(self);
            lemma_decimal_digits_canonical(self.current_number as nat);
            lemma_u128_digits_at_most_39(self.current_number);
        }
        self.nb_digits
    }

    /// The number of element indices that draw the digits: six per digit,
    /// all of them within the element buffer of `digit_quad_elements`.
    pub fn draw_size(&self) -> (n: usize)
        ensures
            n == 6 * decimal_digits(self.number() as nat).len(),
            n <= 6 * MAX_DIGITS,
    {
        proof {
            use_type_invariant(self);
            lemma_u128_digits_at_most_39(self.current_number);
        }
        self.draw_size
    }
}

} // verus!
