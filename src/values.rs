use vstd::prelude::*;
use crate::types::BitId;
use crate::utils::{invalid_input, is_error, push_char, Error, ErrorKind, Result};
use vstd::std_specs::bits::u64_leading_zeros;

verus! {

/// Value bits and mask.
pub type Bits = u64;

/// Largest number of values that one call can get or set.
pub const MAX_VALUES: usize = 64;

/// Largest number of bits that one call can get or set.
pub const MAX_BITS: BitId = 64;

/// Line values with a mask: a position carries a value only where its mask bit is set.
#[derive(Debug, Clone, Copy, PartialEq, Eq, Hash, Structural)]
pub struct Masked<B> {
    /// Logic values of lines
    pub bits: B,
    /// Mask of lines to get or set
    pub mask: B,
}

/// Default representation of line values.
pub type Values = Masked<Bits>;

/// Whether bit `i` of `v` is set.
pub open spec fn bit_of(v: u64, i: u64) -> bool {
    (v >> i) & 1u64 == 1u64
}

/// `v` with bit `i` set (`on`) or cleared.
pub open spec fn with_bit(v: u64, i: u64, on: bool) -> u64 {
    if on {
        v | (1u64 << i)
    } else {
        v & !(1u64 << i)
    }
}

proof fn lemma_with_bit(v: u64, i: u64, on: bool, j: u64)
    requires
        i < 64,
        j < 64,
    ensures
        bit_of(with_bit(v, i, on), j) == if j == i {
            on
        } else {
            bit_of(v, j)
        },
{
    if on {
        assert(((v | (1u64 << i)) >> j) & 1u64 == 1u64 <==> (j == i || (v >> j) & 1u64 == 1u64))
            by (bit_vector)
            requires
                i < 64,
                j < 64,
        ;
    } else {
        assert(((v & !(1u64 << i)) >> j) & 1u64 == 1u64 <==> (j != i && (v >> j) & 1u64 == 1u64))
            by (bit_vector)
            requires
                i < 64,
                j < 64,
        ;
    }
}

proof fn lemma_single_bit(i: u64, v: u64)
    requires
        i < 64,
    ensures
        (v & (1u64 << i) == 0) == !bit_of(v, i),
{
    assert((v & (1u64 << i) == 0) <==> !((v >> i) & 1u64 == 1u64)) by (bit_vector)
        requires
            i < 64,
    ;
}

impl Masked<u64> {
    /// The value at position `i`: `None` outside `0..64` or where the mask bit is clear.
    pub open spec fn value_at(self, i: int) -> Option<bool> {
        if 0 <= i < 64 && bit_of(self.mask, i as u64) {
            Some(bit_of(self.bits, i as u64))
        } else {
            None
        }
    }

    /// No bit is set outside the mask.
    pub open spec fn is_canonical(self) -> bool {
        self.bits & !self.mask == 0
    }

    /// The container after `set(id, val)`.
    pub open spec fn spec_with(self, id: BitId, val: Option<bool>) -> Values {
        if id >= 64 {
            self
        } else {
            Masked {
                bits: with_bit(self.bits, id as u64, val == Some(true)),
                mask: with_bit(self.mask, id as u64, val is Some),
            }
        }
    }

    /// Number of positions (`64`).
    pub fn bits(&self) -> (r: BitId)
        ensures
            r == 64,
    {
        MAX_BITS
    }

    /// Value of position `id`, or `None` where it is out of range or not masked.
    pub fn get(&self, id: BitId) -> (r: Option<bool>)
        ensures
            r == self.value_at(id as int),
    {
        if id >= MAX_BITS {
            return None;
        }
        let m: u64 = 1u64 << id;
        proof {
            lemma_single_bit(id as u64, self.mask);
            lemma_single_bit(id as u64, self.bits);
        }
        if self.mask & m == 0 {
            return None;
        }
        Some(self.bits & m != 0)
    }

    /// Sets position `id` to `val` and masks it; `None` clears both the value and the
    /// mask bit. Nothing changes where `id` is out of range.
    pub fn set(&mut self, id: BitId, val: Option<bool>)
        ensures
            *final(self) == old(self).spec_with(id, val),
            forall|j: int| #[trigger]
                final(self).value_at(j) == if j == id && id < 64 {
                    val
                } else {
                    old(self).value_at(j)
                },
    {
        if id >= MAX_BITS {
            return;
        }
        let m: u64 = 1u64 << id;
        match val {
            Some(v) => {
                self.mask = self.mask | m;
                if v {
                    self.bits = self.bits | m;
                } else {
                    self.bits = self.bits & !m;
                }
            },
            None => {
                self.mask = self.mask & !m;
                self.bits = self.bits & !m;
            },
        }
        proof {
            lemma_value_after_with(*old(self), id, val);
        }
    }

    /// Copy with position `id` set to `val`, as `set` does.
    pub fn with(self, id: BitId, val: Option<bool>) -> (r: Self)
        ensures
            r == self.spec_with(id, val),
    {
        let mut r = self;
        r.set(id, val);
        r
    }

    /// Clears every position from `len` up.
    pub fn truncate(&mut self, len: BitId)
        ensures
            forall|j: int| #[trigger]
                final(self).value_at(j) == if j >= len {
                    None
                } else {
                    old(self).value_at(j)
                },
    {
        let mut id: BitId = len;
        while id < MAX_BITS
            invariant
                len <= 64 ==> len <= id <= 64,
                len > 64 ==> id == len,
                forall|j: int| #[trigger]
                    self.value_at(j) == if len <= j < id {
                        None
                    } else {
                        old(self).value_at(j)
                    },
            decreases 64 - id,
        {
            self.set(id, None);
            id = id + 1;
        }
    }
}

/// Each position's value after `spec_with`.
pub proof fn lemma_value_after_with(v: Values, id: BitId, val: Option<bool>)
    ensures
        forall|j: int| #[trigger]
            v.spec_with(id, val).value_at(j) == if j == id && id < 64 {
                val
            } else {
                v.value_at(j)
            },
{
    if id < 64 {
        assert forall|j: int| #[trigger]
            v.spec_with(id, val).value_at(j) == if j == id {
                val
            } else {
                v.value_at(j)
            } by {
            if 0 <= j < 64 {
                lemma_with_bit(v.bits, id as u64, val == Some(true), j as u64);
                lemma_with_bit(v.mask, id as u64, val is Some, j as u64);
            }
        }
    }
}

/// Setting a position and then reading it gives back what was set: `Some(true)`
/// reads as `Some(true)` and `None` as `None`.
pub proof fn law_set_then_get(v: Values, b: BitId)
    requires
        b < 64,
    ensures
        v.spec_with(b, Some(true)).value_at(b as int) == Some(true),
        v.spec_with(b, Some(false)).value_at(b as int) == Some(false),
        v.spec_with(b, None).value_at(b as int) == None::<bool>,
{
    lemma_value_after_with(v, b, Some(true));
    lemma_value_after_with(v, b, Some(false));
    lemma_value_after_with(v, b, None);
}

/// Text of a bit pattern without its optional `0b` prefix.
pub open spec fn strip_prefix_0b(s: Seq<char>) -> Seq<char> {
    if s.len() >= 2 && s[0] == '0' && s[1] == 'b' {
        s.subrange(2, s.len() as int)
    } else {
        s
    }
}

/// A character that a bit pattern may hold.
pub open spec fn is_pattern_char(c: char) -> bool {
    c == '0' || c == '1' || c == 'x'
}

/// Text that `parse` accepts: at most 64 pattern characters after the prefix.
pub open spec fn is_pattern(s: Seq<char>) -> bool {
    let t = strip_prefix_0b(s);
    t.len() <= 64 && forall|i: int| 0 <= i < t.len() ==> is_pattern_char(#[trigger] t[i])
}

/// `v` shifted one position up, with `c` read into position 0.
pub open spec fn shift_in_char(v: Values, c: char) -> Values {
    Masked {
        bits: (v.bits << 1u64) | (if c == '1' { 1u64 } else { 0u64 }),
        mask: (v.mask << 1u64) | (if c == 'x' { 0u64 } else { 1u64 }),
    }
}

/// The values that the pattern `t` denotes, most significant position first.
pub open spec fn pattern_value(t: Seq<char>) -> Values
    decreases t.len(),
{
    if t.len() == 0 {
        Masked { bits: 0, mask: 0 }
    } else {
        shift_in_char(pattern_value(t.drop_last()), t.last())
    }
}

/// Character that renders a position.
pub open spec fn digit_char(o: Option<bool>) -> char {
    match o {
        Some(true) => '1',
        Some(false) => '0',
        None => 'x',
    }
}

/// Number of positions up to the highest set bit of `v` (`0` for `0`).
pub open spec fn significant(v: u64) -> int {
    64 - u64_leading_zeros(v)
}

/// Alignment of a padded rendering.
#[derive(Debug, Clone, Copy, PartialEq, Eq, Structural)]
pub enum Alignment {
    /// Text first, then the fill
    Left,
    /// Fill first, then the text (the default)
    Right,
    /// Fill on both sides; the odd one before the text
    Center,
}

/// How to render values: prefix, width, alignment and fill character.
#[derive(Debug, Clone, Copy, PartialEq, Eq, Structural)]
pub struct FormatSpec {
    /// Whether to write the `0b` prefix
    pub alternate: bool,
    /// Least number of characters, the prefix not counted
    pub width: Option<usize>,
    /// Where the fill goes
    pub align: Option<Alignment>,
    /// Fill character
    pub fill: char,
}

/// Number of fill characters for a rendering of `len` characters.
pub open spec fn fill_count(spec: FormatSpec, len: int) -> int {
    match spec.width {
        None => 0,
        Some(w) => {
            let width: int = if spec.alternate {
                if w >= 2 {
                    w - 2
                } else {
                    0
                }
            } else {
                w as int
            };
            if width > len {
                width - len
            } else {
                0
            }
        },
    }
}

/// Fill characters before and after the text.
pub open spec fn fill_split(align: Option<Alignment>, fill: int) -> (int, int) {
    match align {
        Some(Alignment::Left) => (0, fill),
        Some(Alignment::Center) => (fill - fill / 2, fill / 2),
        _ => (fill, 0),
    }
}

impl Masked<u64> {
    /// Rendering under `spec`.
    pub open spec fn formatted(self, spec: FormatSpec) -> Seq<char> {
        let d = self.digits();
        let (before, after) = fill_split(spec.align, fill_count(spec, d.len() as int));
        (if spec.alternate {
            "0b"@
        } else {
            Seq::empty()
        }) + Seq::new(before as nat, |_i: int| spec.fill) + d + Seq::new(after as nat, |_i: int| spec.fill)
    }
}

proof fn lemma_leading_zeros_bounds(v: u64)
    ensures
        0 <= significant(v) <= 64,
{
    vstd::std_specs::bits::axiom_u64_leading_zeros(v);
}

impl Masked<u64> {
    /// Number of rendered positions: up to the highest masked position, and at least
    /// one.
    pub open spec fn format_len(self) -> int {
        let l = significant(self.mask);
        if l < 1 {
            1
        } else {
            l
        }
    }

    /// Rendering: one character per position from `format_len() - 1` down to `0`.
    pub open spec fn digits(self) -> Seq<char> {
        Seq::new(self.format_len() as nat, |k: int| digit_char(self.value_at(self.format_len() - 1 - k)))
    }

    /// Parses a pattern of `0`, `1` and `x` (not set), most significant position first,
    /// with an optional `0b` prefix.
    pub fn parse(s: &str) -> (r: Result<Values>)
        ensures
            r is Ok <==> is_pattern(s@),
            r is Ok ==> r->Ok_0 == pattern_value(strip_prefix_0b(s@)),
            r is Err ==> r->Err_0.kind == ErrorKind::InvalidInput,
            r is Err && strip_prefix_0b(s@).len() > 64 ==> is_error(r->Err_0, ErrorKind::InvalidInput, "Too many line values"),
    {
        let n = s.unicode_len();
        let mut start: usize = 0;
        if n >= 2 && s.get_char(0) == '0' && s.get_char(1) == 'b' {
            start = 2;
        }
        let ghost t = strip_prefix_0b(s@);
        assert(t =~= s@.subrange(start as int, n as int));
        let len = n - start;
        if len > 64 {
            return Err(invalid_input("Too many line values"));
        }
        let mut r: Values = Masked { bits: 0, mask: 0 };
        let mut k: usize = 0;
        assert(t.subrange(0, 0) =~= Seq::<char>::empty());
        while k < len
            invariant
                n == s@.len(),
                start + len == n,
                len <= 64,
                t == s@.subrange(start as int, n as int),
                t == strip_prefix_0b(s@),
                k <= len,
                r == pattern_value(t.subrange(0, k as int)),
                forall|i: int| 0 <= i < k ==> is_pattern_char(#[trigger] t[i]),
            decreases len - k,
        {
            let c = s.get_char(start + k);
            assert(t[k as int] == c);
            if c != '0' && c != '1' && c != 'x' {
                assert(!is_pattern_char(t[k as int]));
                assert(t.len() == len);
                return Err(invalid_input("Unexpected char in line value"));
            }
            r = Masked {
                bits: (r.bits << 1u64) | (if c == '1' { 1u64 } else { 0u64 }),
                mask: (r.mask << 1u64) | (if c == 'x' { 0u64 } else { 1u64 }),
            };
            assert(t.subrange(0, k + 1).drop_last() =~= t.subrange(0, k as int));
            k = k + 1;
        }
        assert(t.subrange(0, len as int) =~= t);
        Ok(r)
    }

    /// Appends the rendering of `to_string` to `out`.
    fn append_digits(&self, out: &mut String)
        ensures
            final(out)@ == old(out)@ + self.digits(),
    {
        let lz = self.mask.leading_zeros();
        proof {
            lemma_leading_zeros_bounds(self.mask);
        }
        let mut len: u8 = (64 - lz) as u8;
        if len < 1 {
            len = 1;
        }
        assert(len == self.format_len());
        let mut i: u8 = len;
        while i > 0
            invariant
                i <= len,
                len == self.format_len(),
                out@ =~= old(out)@ + self.digits().subrange(0, len - i),
            decreases i,
        {
            i = i - 1;
            let c = match self.get(i) {
                Some(true) => '1',
                Some(false) => '0',
                None => 'x',
            };
            push_char(out, c);
            assert(out@ =~= old(out)@ + self.digits().subrange(0, len - i));
        }
        assert(self.digits().subrange(0, len as int) =~= self.digits());
    }

    /// Renders the positions from the highest masked one down to `0` (at least one),
    /// as `1`, `0`, or `x` where the mask bit is clear.
    pub fn to_string(&self) -> (r: String)
        ensures
            r@ == self.digits(),
    {
        let mut r = String::new();
        self.append_digits(&mut r);
        assert(r@ =~= self.digits());
        r
    }

    /// Renders as `to_string` does, with the `0b` prefix where `spec.alternate`, and
    /// padded with `spec.fill` up to `spec.width` characters (the prefix not counted).
    pub fn format_with(&self, spec: &FormatSpec) -> (r: String)
        ensures
            r@ == self.formatted(*spec),
    {
        let mut r = String::new();
        if spec.alternate {
            push_char(&mut r, '0');
            push_char(&mut r, 'b');
        }
        let ghost prefix = r@;
        assert(prefix =~= (if spec.alternate { "0b"@ } else { Seq::empty() })) by {
            reveal_strlit("0b");
        }
        let lz = self.mask.leading_zeros();
        proof {
            lemma_leading_zeros_bounds(self.mask);
        }
        let mut len: usize = (64 - lz) as usize;
        if len < 1 {
            len = 1;
        }
        let fill: usize = match spec.width {
            None => 0,
            Some(w) => {
                let width = if spec.alternate {
                    if w >= 2 {
                        w - 2
                    } else {
                        0
                    }
                } else {
                    w
                };
                if width > len {
                    width - len
                } else {
                    0
                }
            },
        };
        let (before, after): (usize, usize) = match spec.align {
            Some(Alignment::Left) => (0, fill),
            Some(Alignment::Center) => (fill - fill / 2, fill / 2),
            _ => (fill, 0),
        };
        assert(fill_count(*spec, self.digits().len() as int) == fill);
        let mut k: usize = 0;
        while k < before
            invariant
                k <= before,
                r@ =~= prefix + Seq::new(k as nat, |_i: int| spec.fill),
            decreases before - k,
        {
            push_char(&mut r, spec.fill);
            k = k + 1;
            assert(r@ =~= prefix + Seq::new(k as nat, |_i: int| spec.fill));
        }
        self.append_digits(&mut r);
        let ghost middle = r@;
        let mut k: usize = 0;
        while k < after
            invariant
                k <= after,
                r@ =~= middle + Seq::new(k as nat, |_i: int| spec.fill),
            decreases after - k,
        {
            push_char(&mut r, spec.fill);
            k = k + 1;
            assert(r@ =~= middle + Seq::new(k as nat, |_i: int| spec.fill));
        }
        r
    }
}


/// `v` shifted one position up, with `b` read into position 0 as a set value.
pub open spec fn shift_in_bool(v: Values, b: bool) -> Values {
    Masked { bits: (v.bits << 1u64) | (if b { 1u64 } else { 0u64 }), mask: (v.mask << 1u64) | 1u64 }
}

/// `v` after appending `items`, most significant first, while the highest position
/// (63) is not yet masked.
pub open spec fn extended(v: Values, items: Seq<bool>) -> Values
    decreases items.len(),
{
    if items.len() == 0 || bit_of(v.mask, 63) {
        v
    } else {
        extended(shift_in_bool(v, items[0]), items.drop_first())
    }
}

impl Masked<u64> {
    /// The significant positions, from the highest masked one down to `0`, each as
    /// `true` where its value is `1`.
    pub open spec fn bools_view(self) -> Seq<bool> {
        let n = significant(self.mask);
        Seq::new(n as nat, |k: int| self.value_at(n - 1 - k) == Some(true))
    }

    /// Appends `items`, most significant first: the positions held so far move up.
    /// Stops once position 63 is masked.
    pub fn extend(&mut self, items: &[bool])
        ensures
            *final(self) == extended(*old(self), items@),
    {
        let mut i: usize = 0;
        assert(items@.subrange(0, items@.len() as int) =~= items@);
        while i < items.len() && (self.mask >> 63u64) & 1u64 == 0
            invariant
                i <= items@.len(),
                extended(*old(self), items@) == extended(*self, items@.subrange(i as int, items@.len() as int)),
            decreases items@.len() - i,
        {
            let ghost rest = items@.subrange(i as int, items@.len() as int);
            assert(rest.drop_first() =~= items@.subrange(i + 1, items@.len() as int));
            let b = items[i];
            *self = Masked {
                bits: (self.bits << 1u64) | (if b { 1u64 } else { 0u64 }),
                mask: (self.mask << 1u64) | 1u64,
            };
            i = i + 1;
        }
        let ghost mk = self.mask;
        assert((mk >> 63u64) & 1u64 != 0u64 ==> (mk >> 63u64) & 1u64 == 1u64) by (bit_vector);
        assert(items@.subrange(i as int, items@.len() as int).len() == 0 || bit_of(self.mask, 63));
    }

    /// Values built from `items`, most significant first; at most 64 are taken.
    pub fn from_bools(items: &[bool]) -> (r: Values)
        ensures
            r == extended(Masked { bits: 0, mask: 0 }, items@),
    {
        let mut r: Values = Masked { bits: 0, mask: 0 };
        r.extend(items);
        r
    }

    /// The significant positions, from the highest masked one down to `0`.
    pub fn to_bools(&self) -> (r: Vec<bool>)
        ensures
            r@ == self.bools_view(),
    {
        let lz = self.mask.leading_zeros();
        proof {
            lemma_leading_zeros_bounds(self.mask);
        }
        let n: u8 = (64 - lz) as u8;
        let mut r: Vec<bool> = Vec::new();
        let mut i: u8 = n;
        while i > 0
            invariant
                i <= n,
                n == significant(self.mask),
                r@ =~= self.bools_view().subrange(0, n - i),
            decreases i,
        {
            i = i - 1;
            r.push(self.get(i) == Some(true));
            assert(r@ =~= self.bools_view().subrange(0, n - i));
        }
        r
    }
}

proof fn lemma_shift_in_bit(x: u64, y: u64, j: u64)
    requires
        y <= 1,
        j < 64,
    ensures
        bit_of((x << 1u64) | y, j) == if j == 0 {
            y == 1
        } else {
            bit_of(x, (j - 1) as u64)
        },
{
    assert(j == 0 ==> ((((x << 1u64) | y) >> j) & 1u64 == 1u64 <==> y == 1)) by (bit_vector)
        requires
            y <= 1,
    ;
    assert(0 < j < 64 ==> ((((x << 1u64) | y) >> j) & 1u64 == 1u64 <==> (x >> vstd::prelude::sub(j, 1u64)) & 1u64
        == 1u64)) by (bit_vector)
        requires
            y <= 1,
    ;
}

/// A mask whose set bits are exactly `0..k` has `k` significant positions.
proof fn lemma_significant_of_low_bits(m: u64, k: int)
    requires
        0 <= k <= 64,
        forall|j: u64| j < 64 ==> bit_of(m, j) == (j < k),
    ensures
        significant(m) == k,
{
    vstd::std_specs::bits::axiom_u64_leading_zeros(m);
    let lz = u64_leading_zeros(m);
    if lz < 64 {
        let top = (63 - lz) as u64;
        assert((m >> top) & 1u64 != 0u64 ==> (m >> top) & 1u64 == 1u64) by (bit_vector);
        assert(bit_of(m, top));
        assert(top < k);
        if lz > 64 - k {
            let j = (k - 1) as u64;
            assert(bit_of(m, j));
            assert((m >> j) & 1u64 == 0u64);
        }
    } else {
        if k > 0 {
            assert(m == 0);
            assert(bit_of(0u64, 0u64) == false) by (bit_vector);
            assert(bit_of(m, 0u64));
        }
    }
}

proof fn lemma_extended_from_prefix(v: Values, p: Seq<bool>, rest: Seq<bool>)
    requires
        p.len() + rest.len() <= 64,
        forall|j: u64| j < 64 ==> bit_of(v.mask, j) == (j < p.len()),
        forall|j: u64| j < p.len() ==> bit_of(v.bits, j) == p[p.len() - 1 - j],
    ensures
        extended(v, rest).bools_view() == p + rest,
    decreases rest.len(),
{
    if rest.len() == 0 {
        lemma_significant_of_low_bits(v.mask, p.len() as int);
        assert(v.bools_view() =~= p + rest);
    } else {
        assert(!bit_of(v.mask, 63));
        let b = rest[0];
        let w = shift_in_bool(v, b);
        let q = p.push(b);
        let y: u64 = if b { 1 } else { 0 };
        assert forall|j: u64| j < 64 implies bit_of(w.mask, j) == (j < q.len()) by {
            lemma_shift_in_bit(v.mask, 1u64, j);
        }
        assert forall|j: u64| j < q.len() implies bit_of(w.bits, j) == q[q.len() - 1 - j] by {
            lemma_shift_in_bit(v.bits, y, j);
        }
        lemma_extended_from_prefix(w, q, rest.drop_first());
        assert(q + rest.drop_first() =~= p + rest);
    }
}

/// Building values from a sequence of at most 64 booleans and reading the significant
/// positions back gives the same sequence.
pub proof fn law_bools_round_trip(items: Seq<bool>)
    requires
        items.len() <= 64,
    ensures
        extended(Masked { bits: 0, mask: 0 }, items).bools_view() == items,
{
    let v: Values = Masked { bits: 0, mask: 0 };
    assert forall|j: u64| j < 64 implies bit_of(v.mask, j) == (j < 0) by {
        assert((0u64 >> j) & 1u64 == 0u64) by (bit_vector);
    }
    lemma_extended_from_prefix(v, Seq::empty(), items);
    assert(Seq::<bool>::empty() + items =~= items);
}

/// `x` shifted down by `s`, or `0` where `s` is 64 or more.
pub open spec fn shift_down(x: u64, s: int) -> u64 {
    if s >= 64 {
        0
    } else {
        x >> (s as u64)
    }
}

proof fn lemma_shift_down_step(x: u64, s: int)
    requires
        0 <= s < 64,
    ensures
        (shift_down(x, s + 1) << 1u64) | ((x >> (s as u64)) & 1u64) == shift_down(x, s),
        (x >> (s as u64)) & 1u64 == 1u64 || (x >> (s as u64)) & 1u64 == 0u64,
{
    let t = s as u64;
    assert((x >> t) & 1u64 == 1u64 || (x >> t) & 1u64 == 0u64) by (bit_vector);
    if s == 63 {
        assert(t == 63 ==> (0u64 << 1u64) | ((x >> t) & 1u64) == x >> t) by (bit_vector);
    } else {
        assert(t < 63 ==> ((x >> vstd::prelude::add(t, 1u64)) << 1u64) | ((x >> t) & 1u64) == x >> t) by (bit_vector);
    }
}

proof fn lemma_pattern_prefix(v: Values, m: int)
    requires
        v.is_canonical(),
        1 <= v.format_len() <= 64,
        v.format_len() == 64 || v.mask >> (v.format_len() as u64) == 0,
        v.format_len() == 64 || v.bits >> (v.format_len() as u64) == 0,
        0 <= m <= v.format_len(),
    ensures
        pattern_value(v.digits().subrange(0, m)) == (Masked {
            bits: shift_down(v.bits, v.format_len() - m),
            mask: shift_down(v.mask, v.format_len() - m),
        }),
    decreases m,
{
    let d = v.digits();
    let l = v.format_len();
    let bits = v.bits;
    let mask = v.mask;
    if m == 0 {
        assert(d.subrange(0, 0) =~= Seq::<char>::empty());
    } else {
        lemma_pattern_prefix(v, m - 1);
        let s = l - m;
        let su = s as u64;
        lemma_shift_down_step(bits, s);
        lemma_shift_down_step(mask, s);
        assert(bits & !mask == 0 ==> ((bits >> su) & 1u64 == 1u64 ==> (mask >> su) & 1u64 == 1u64)) by (bit_vector);
        assert(d.subrange(0, m).drop_last() =~= d.subrange(0, m - 1));
    }
}

/// Rendering values and parsing the text back gives the same values, where no bit is
/// set outside the mask.
pub proof fn law_format_parse_round_trip(v: Values)
    requires
        v.is_canonical(),
    ensures
        is_pattern(v.digits()),
        pattern_value(strip_prefix_0b(v.digits())) == v,
{
    vstd::std_specs::bits::axiom_u64_leading_zeros(v.mask);
    let d = v.digits();
    let l = v.format_len();
    let lz = u64_leading_zeros(v.mask);
    if lz == 64 {
        let m = v.mask;
        assert(m == 0 ==> m >> 1u64 == 0) by (bit_vector);
    } else {
        assert(l == 64 - lz);
    }
    assert(l == 64 || v.mask >> (l as u64) == 0);
    assert(strip_prefix_0b(d) == d);
    assert forall|i: int| 0 <= i < d.len() implies is_pattern_char(#[trigger] d[i]) by {}
    let bits = v.bits;
    let mask = v.mask;
    if l < 64 {
        let lu = l as u64;
        assert(bits & !mask == 0 && mask >> lu == 0 ==> bits >> lu == 0) by (bit_vector);
    }
    lemma_pattern_prefix(v, l);
    assert(d.subrange(0, l) =~= d);
    assert(bits >> 0u64 == bits && mask >> 0u64 == mask) by (bit_vector);
}


/// Something that can be used to get GPIO line values
pub trait AsValues {
    /// Number of positions, as `bits` reports it.
    spec fn spec_bits(&self) -> nat;

    /// Value of position `id`, as `get` reports it.
    spec fn spec_get(&self, id: int) -> Option<bool>;

    /// Number of positions
    fn bits(&self) -> (r: BitId)
        ensures
            r as nat == self.spec_bits(),
    ;

    /// Value of position `id`; `None` where it is out of range or not set
    fn get(&self, id: BitId) -> (r: Option<bool>)
        ensures
            r == self.spec_get(id as int),
    ;
}

/// Something that can be used to get and set GPIO line values
pub trait AsValuesMut: AsValues {
    /// Sets position `id`; nothing changes where `id` is out of range. On `None` a
    /// container unsets the position, or, where it cannot hold an unset position,
    /// clears it to `0` or leaves it as it was.
    fn set(&mut self, id: BitId, val: Option<bool>)
        ensures
            final(self).spec_bits() == old(self).spec_bits(),
            forall|j: int| j != id ==> #[trigger] final(self).spec_get(j) == old(self).spec_get(j),
            (id as nat) < old(self).spec_bits() && val is Some ==> final(self).spec_get(id as int) == val,
            val is None ==> final(self).spec_get(id as int) != Some(true) || final(self).spec_get(id as int)
                == old(self).spec_get(id as int),
    ;
}

impl AsValues for Masked<u64> {
    open spec fn spec_bits(&self) -> nat {
        64
    }

    open spec fn spec_get(&self, id: int) -> Option<bool> {
        self.value_at(id)
    }

    fn bits(&self) -> (r: BitId) {
        MAX_BITS
    }

    fn get(&self, id: BitId) -> (r: Option<bool>) {
        Masked::<u64>::get(self, id)
    }
}

impl AsValuesMut for Masked<u64> {
    fn set(&mut self, id: BitId, val: Option<bool>) {
        Masked::<u64>::set(self, id, val)
    }
}

impl AsValues for u64 {
    open spec fn spec_bits(&self) -> nat {
        64
    }

    open spec fn spec_get(&self, id: int) -> Option<bool> {
        if 0 <= id < 64 {
            Some(bit_of(*self, id as u64))
        } else {
            None
        }
    }

    fn bits(&self) -> (r: BitId) {
        MAX_BITS
    }

    fn get(&self, id: BitId) -> (r: Option<bool>) {
        if id >= MAX_BITS {
            return None;
        }
        proof {
            lemma_single_bit(id as u64, *self);
        }
        Some(*self & (1u64 << id) != 0)
    }
}

impl AsValuesMut for u64 {
    /// `Some(true)` sets the bit; `Some(false)` and `None` clear it.
    fn set(&mut self, id: BitId, val: Option<bool>) {
        if id >= MAX_BITS {
            return;
        }
        let on = val == Some(true);
        let ghost before = *self;
        if on {
            *self = *self | (1u64 << id);
        } else {
            *self = *self & !(1u64 << id);
        }
        proof {
            assert forall|j: int| j != id implies #[trigger] self.spec_get(j) == before.spec_get(j) by {
                if 0 <= j < 64 {
                    lemma_with_bit(before, id as u64, on, j as u64);
                }
            }
            lemma_with_bit(before, id as u64, on, id as u64);
        }
    }
}

impl AsValues for Vec<bool> {
    /// The length, saturated at 255.
    open spec fn spec_bits(&self) -> nat {
        if self@.len() > 255 {
            255
        } else {
            self@.len()
        }
    }

    open spec fn spec_get(&self, id: int) -> Option<bool> {
        if 0 <= id < self@.len() {
            Some(self@[id])
        } else {
            None
        }
    }

    fn bits(&self) -> (r: BitId) {
        if self.len() > 255 {
            255
        } else {
            self.len() as BitId
        }
    }

    fn get(&self, id: BitId) -> (r: Option<bool>) {
        if (id as usize) < self.len() {
            Some(self[id as usize])
        } else {
            None
        }
    }
}

impl AsValuesMut for Vec<bool> {
    /// `None` leaves the position as it was.
    fn set(&mut self, id: BitId, val: Option<bool>) {
        if (id as usize) < self.len() {
            if let Some(v) = val {
                self[id as usize] = v;
            }
        }
    }
}

impl AsValues for Vec<Option<bool>> {
    /// The length, saturated at 255.
    open spec fn spec_bits(&self) -> nat {
        if self@.len() > 255 {
            255
        } else {
            self@.len()
        }
    }

    open spec fn spec_get(&self, id: int) -> Option<bool> {
        if 0 <= id < self@.len() {
            self@[id]
        } else {
            None
        }
    }

    fn bits(&self) -> (r: BitId) {
        if self.len() > 255 {
            255
        } else {
            self.len() as BitId
        }
    }

    fn get(&self, id: BitId) -> (r: Option<bool>) {
        if (id as usize) < self.len() {
            self[id as usize]
        } else {
            None
        }
    }
}

impl AsValuesMut for Vec<Option<bool>> {
    fn set(&mut self, id: BitId, val: Option<bool>) {
        if (id as usize) < self.len() {
            self[id as usize] = val;
        }
    }
}

/// Copies positions `0..min(from.bits(), to.bits())` of `from` into `to`.
pub fn copy_values<S: AsValues, T: AsValuesMut>(from: &S, to: &mut T)
    ensures
        final(to).spec_bits() == old(to).spec_bits(),
        forall|j: int|
            0 <= j < from.spec_bits() && j < old(to).spec_bits() && from.spec_get(j) is Some
                ==> #[trigger] final(to).spec_get(j) == from.spec_get(j),
        forall|j: int|
            0 <= j < from.spec_bits() && j < old(to).spec_bits() && from.spec_get(j) is None
                ==> #[trigger] final(to).spec_get(j) != Some(true) || final(to).spec_get(j) == old(to).spec_get(j),
        forall|j: int|
            !(0 <= j < from.spec_bits() && j < old(to).spec_bits()) ==> #[trigger] final(to).spec_get(j)
                == old(to).spec_get(j),
{
    let a = from.bits();
    let b = to.bits();
    let n: BitId = if a < b {
        a
    } else {
        b
    };
    let mut id: BitId = 0;
    while id < n
        invariant
            n as nat <= from.spec_bits(),
            n as nat <= old(to).spec_bits(),
            n == a || n == b,
            a as nat == from.spec_bits(),
            b as nat == old(to).spec_bits(),
            id <= n,
            to.spec_bits() == old(to).spec_bits(),
            forall|j: int| 0 <= j < id && from.spec_get(j) is Some ==> #[trigger] to.spec_get(j) == from.spec_get(j),
            forall|j: int| 0 <= j < id && from.spec_get(j) is None ==> #[trigger] to.spec_get(j) != Some(true) || to.spec_get(j) == old(to).spec_get(j),
            forall|j: int| !(0 <= j < id) ==> #[trigger] to.spec_get(j) == old(to).spec_get(j),
        decreases n - id,
    {
        let v = from.get(id);
        to.set(id, v);
        id = id + 1;
    }
}

/// Length of a bit pattern without its optional `0b` prefix.
fn pattern_len(s: &str) -> (r: usize)
    ensures
        r == strip_prefix_0b(s@).len(),
{
    let n = s.unicode_len();
    if n >= 2 && s.get_char(0) == '0' && s.get_char(1) == 'b' {
        n - 2
    } else {
        n
    }
}

/// A pattern of `k` characters sets no bit at or above `k`.
proof fn lemma_pattern_bound(t: Seq<char>)
    requires
        t.len() <= 32,
    ensures
        pattern_value(t).bits < (1u64 << (t.len() as u64)),
        pattern_value(t).mask < (1u64 << (t.len() as u64)),
    decreases t.len(),
{
    if t.len() == 0 {
        assert(0u64 < (1u64 << 0u64)) by (bit_vector);
    } else {
        lemma_pattern_bound(t.drop_last());
        let k = (t.len() - 1) as u64;
        let v = pattern_value(t.drop_last());
        let x = v.bits;
        let m = v.mask;
        let b: u64 = if t.last() == '1' { 1 } else { 0 };
        let c: u64 = if t.last() == 'x' { 0 } else { 1 };
        assert(k < 32 && x < (1u64 << k) && b <= 1 ==> ((x << 1u64) | b) < (1u64 << vstd::prelude::add(k, 1u64)))
            by (bit_vector);
        assert(k < 32 && m < (1u64 << k) && c <= 1 ==> ((m << 1u64) | c) < (1u64 << vstd::prelude::add(k, 1u64)))
            by (bit_vector);
    }
}

/// Setting or clearing a bit below `w` keeps a value below `2^w`.
proof fn lemma_with_bit_below(x: u64, i: u64, on: bool, w: u64)
    requires
        w <= 32,
        i < w,
        x < (1u64 << w),
    ensures
        with_bit(x, i, on) < (1u64 << w),
{
    assert(w <= 32 && i < w && x < (1u64 << w) ==> (x | (1u64 << i)) < (1u64 << w) && (x & !(1u64
        << i)) < (1u64 << w)) by (bit_vector);
}

proof fn lemma_shift_bound(k: u64, w: u64)
    requires
        k <= w <= 32,
    ensures
        (1u64 << k) <= (1u64 << w),
        (1u64 << w) <= 0x1_0000_0000u64,
{
    assert(k <= w && w <= 32 ==> (1u64 << k) <= (1u64 << w) && (1u64 << w) <= 0x1_0000_0000u64)
        by (bit_vector);
}

impl Masked<u8> {
    /// The same positions in the 64-bit container.
    pub open spec fn widen(self) -> Values {
        Masked { bits: self.bits as u64, mask: self.mask as u64 }
    }

    /// The value at position `i`: `None` outside `0..8` or where the mask bit is clear.
    pub open spec fn value_at(self, i: int) -> Option<bool> {
        if 0 <= i < 8 {
            self.widen().value_at(i)
        } else {
            None
        }
    }

    /// The same positions in the 64-bit container.
    pub fn to_values(&self) -> (r: Values)
        ensures
            r == self.widen(),
    {
        Masked { bits: self.bits as u64, mask: self.mask as u64 }
    }

    /// Number of positions (`8`).
    pub fn bits(&self) -> (r: BitId)
        ensures
            r == 8,
    {
        8
    }

    /// Value of position `id`, or `None` where it is out of range or not masked.
    pub fn get(&self, id: BitId) -> (r: Option<bool>)
        ensures
            r == self.value_at(id as int),
    {
        if id >= 8 {
            return None;
        }
        self.to_values().get(id)
    }

    /// Sets position `id` to `val` and masks it; `None` clears both the value and the
    /// mask bit. Nothing changes where `id` is out of range.
    pub fn set(&mut self, id: BitId, val: Option<bool>)
        ensures
            id >= 8 ==> *final(self) == *old(self),
            id < 8 ==> final(self).widen() == old(self).widen().spec_with(id, val),
    {
        if id >= 8 {
            return;
        }
        let w = self.to_values().with(id, val);
        proof {
            assert(1u64 << 8u64 == 256u64) by (bit_vector);
            lemma_with_bit_below(self.bits as u64, id as u64, val == Some(true), 8u64);
            lemma_with_bit_below(self.mask as u64, id as u64, val is Some, 8u64);
        }
        self.bits = w.bits as u8;
        self.mask = w.mask as u8;
    }

    /// Copy with position `id` set to `val`, as `set` does.
    pub fn with(self, id: BitId, val: Option<bool>) -> (r: Self)
        ensures
            id >= 8 ==> r == self,
            id < 8 ==> r.widen() == self.widen().spec_with(id, val),
    {
        let mut r = self;
        r.set(id, val);
        r
    }

    /// Parses a pattern of at most 8 characters `0`, `1` and `x` (not set), most
    /// significant position first, with an optional `0b` prefix.
    pub fn parse(s: &str) -> (r: Result<Self>)
        ensures
            r is Ok <==> is_pattern(s@) && strip_prefix_0b(s@).len() <= 8,
            r is Ok ==> r->Ok_0.widen() == pattern_value(strip_prefix_0b(s@)),
            r is Err ==> r->Err_0.kind == ErrorKind::InvalidInput,
    {
        if pattern_len(s) > 8 {
            return Err(invalid_input("Too many line values"));
        }
        let v = Masked::<u64>::parse(s)?;
        proof {
            let t = strip_prefix_0b(s@);
            lemma_pattern_bound(t);
            lemma_shift_bound(t.len() as u64, 8u64);
            assert(1u64 << 8u64 == 256u64) by (bit_vector);
        }
        Ok(Masked { bits: v.bits as u8, mask: v.mask as u8 })
    }

    /// Renders the positions from the highest masked one down to `0` (at least one),
    /// as `1`, `0`, or `x` where the mask bit is clear.
    pub fn to_string(&self) -> (r: String)
        ensures
            r@ == self.widen().digits(),
    {
        self.to_values().to_string()
    }

    /// Renders as `to_string` does, with prefix and padding as `spec` asks.
    pub fn format_with(&self, spec: &FormatSpec) -> (r: String)
        ensures
            r@ == self.widen().formatted(*spec),
    {
        self.to_values().format_with(spec)
    }
}

impl Default for Masked<u8> {
    /// No position set.
    fn default() -> (r: Self)
        ensures
            r == (Masked { bits: 0 as u8, mask: 0 as u8 }),
    {
        Masked { bits: 0, mask: 0 }
    }
}

impl core::str::FromStr for Masked<u8> {
    type Err = Error;

    fn from_str(s: &str) -> Result<Self> {
        Masked::<u8>::parse(s)
    }
}

impl From<u8> for Masked<u8> {
    /// All 8 positions set to the bits of `bits`.
    fn from(bits: u8) -> (r: Self) {
        Masked { bits, mask: 0xffu8 }
    }
}

impl vstd::std_specs::convert::FromSpecImpl<u8> for Masked<u8> {
    open spec fn obeys_from_spec() -> bool {
        true
    }

    open spec fn from_spec(v: u8) -> Self {
        Masked { bits: v, mask: 0xffu8 }
    }
}

impl From<Masked<u8>> for u8 {
    /// The set positions; the others read as `0`.
    fn from(values: Masked<u8>) -> (r: u8) {
        values.bits & values.mask
    }
}

impl vstd::std_specs::convert::FromSpecImpl<Masked<u8>> for u8 {
    open spec fn obeys_from_spec() -> bool {
        true
    }

    open spec fn from_spec(v: Masked<u8>) -> u8 {
        v.bits & v.mask
    }
}

impl AsValues for Masked<u8> {
    open spec fn spec_bits(&self) -> nat {
        8
    }

    open spec fn spec_get(&self, id: int) -> Option<bool> {
        self.value_at(id)
    }

    fn bits(&self) -> (r: BitId) {
        8
    }

    fn get(&self, id: BitId) -> (r: Option<bool>) {
        Masked::<u8>::get(self, id)
    }
}

impl AsValuesMut for Masked<u8> {
    fn set(&mut self, id: BitId, val: Option<bool>) {
        let ghost before = *self;
        Masked::<u8>::set(self, id, val);
        proof {
            lemma_value_after_with(before.widen(), id, val);
        }
    }
}

impl Masked<u16> {
    /// The same positions in the 64-bit container.
    pub open spec fn widen(self) -> Values {
        Masked { bits: self.bits as u64, mask: self.mask as u64 }
    }

    /// The value at position `i`: `None` outside `0..16` or where the mask bit is clear.
    pub open spec fn value_at(self, i: int) -> Option<bool> {
        if 0 <= i < 16 {
            self.widen().value_at(i)
        } else {
            None
        }
    }

    /// The same positions in the 64-bit container.
    pub fn to_values(&self) -> (r: Values)
        ensures
            r == self.widen(),
    {
        Masked { bits: self.bits as u64, mask: self.mask as u64 }
    }

    /// Number of positions (`16`).
    pub fn bits(&self) -> (r: BitId)
        ensures
            r == 16,
    {
        16
    }

    /// Value of position `id`, or `None` where it is out of range or not masked.
    pub fn get(&self, id: BitId) -> (r: Option<bool>)
        ensures
            r == self.value_at(id as int),
    {
        if id >= 16 {
            return None;
        }
        self.to_values().get(id)
    }

    /// Sets position `id` to `val` and masks it; `None` clears both the value and the
    /// mask bit. Nothing changes where `id` is out of range.
    pub fn set(&mut self, id: BitId, val: Option<bool>)
        ensures
            id >= 16 ==> *final(self) == *old(self),
            id < 16 ==> final(self).widen() == old(self).widen().spec_with(id, val),
    {
        if id >= 16 {
            return;
        }
        let w = self.to_values().with(id, val);
        proof {
            assert(1u64 << 16u64 == 0x1_0000u64) by (bit_vector);
            lemma_with_bit_below(self.bits as u64, id as u64, val == Some(true), 16u64);
            lemma_with_bit_below(self.mask as u64, id as u64, val is Some, 16u64);
        }
        self.bits = w.bits as u16;
        self.mask = w.mask as u16;
    }

    /// Copy with position `id` set to `val`, as `set` does.
    pub fn with(self, id: BitId, val: Option<bool>) -> (r: Self)
        ensures
            id >= 16 ==> r == self,
            id < 16 ==> r.widen() == self.widen().spec_with(id, val),
    {
        let mut r = self;
        r.set(id, val);
        r
    }

    /// Parses a pattern of at most 16 characters `0`, `1` and `x` (not set), most
    /// significant position first, with an optional `0b` prefix.
    pub fn parse(s: &str) -> (r: Result<Self>)
        ensures
            r is Ok <==> is_pattern(s@) && strip_prefix_0b(s@).len() <= 16,
            r is Ok ==> r->Ok_0.widen() == pattern_value(strip_prefix_0b(s@)),
            r is Err ==> r->Err_0.kind == ErrorKind::InvalidInput,
    {
        if pattern_len(s) > 16 {
            return Err(invalid_input("Too many line values"));
        }
        let v = Masked::<u64>::parse(s)?;
        proof {
            let t = strip_prefix_0b(s@);
            lemma_pattern_bound(t);
            lemma_shift_bound(t.len() as u64, 16u64);
            assert(1u64 << 16u64 == 0x1_0000u64) by (bit_vector);
        }
        Ok(Masked { bits: v.bits as u16, mask: v.mask as u16 })
    }

    /// Renders the positions from the highest masked one down to `0` (at least one),
    /// as `1`, `0`, or `x` where the mask bit is clear.
    pub fn to_string(&self) -> (r: String)
        ensures
            r@ == self.widen().digits(),
    {
        self.to_values().to_string()
    }

    /// Renders as `to_string` does, with prefix and padding as `spec` asks.
    pub fn format_with(&self, spec: &FormatSpec) -> (r: String)
        ensures
            r@ == self.widen().formatted(*spec),
    {
        self.to_values().format_with(spec)
    }
}

impl Default for Masked<u16> {
    /// No position set.
    fn default() -> (r: Self)
        ensures
            r == (Masked { bits: 0 as u16, mask: 0 as u16 }),
    {
        Masked { bits: 0, mask: 0 }
    }
}

impl core::str::FromStr for Masked<u16> {
    type Err = Error;

    fn from_str(s: &str) -> Result<Self> {
        Masked::<u16>::parse(s)
    }
}

impl From<u16> for Masked<u16> {
    /// All 16 positions set to the bits of `bits`.
    fn from(bits: u16) -> (r: Self) {
        Masked { bits, mask: 0xffffu16 }
    }
}

impl vstd::std_specs::convert::FromSpecImpl<u16> for Masked<u16> {
    open spec fn obeys_from_spec() -> bool {
        true
    }

    open spec fn from_spec(v: u16) -> Self {
        Masked { bits: v, mask: 0xffffu16 }
    }
}

impl From<Masked<u16>> for u16 {
    /// The set positions; the others read as `0`.
    fn from(values: Masked<u16>) -> (r: u16) {
        values.bits & values.mask
    }
}

impl vstd::std_specs::convert::FromSpecImpl<Masked<u16>> for u16 {
    open spec fn obeys_from_spec() -> bool {
        true
    }

    open spec fn from_spec(v: Masked<u16>) -> u16 {
        v.bits & v.mask
    }
}

impl AsValues for Masked<u16> {
    open spec fn spec_bits(&self) -> nat {
        16
    }

    open spec fn spec_get(&self, id: int) -> Option<bool> {
        self.value_at(id)
    }

    fn bits(&self) -> (r: BitId) {
        16
    }

    fn get(&self, id: BitId) -> (r: Option<bool>) {
        Masked::<u16>::get(self, id)
    }
}

impl AsValuesMut for Masked<u16> {
    fn set(&mut self, id: BitId, val: Option<bool>) {
        let ghost before = *self;
        Masked::<u16>::set(self, id, val);
        proof {
            lemma_value_after_with(before.widen(), id, val);
        }
    }
}

impl Masked<u32> {
    /// The same positions in the 64-bit container.
    pub open spec fn widen(self) -> Values {
        Masked { bits: self.bits as u64, mask: self.mask as u64 }
    }

    /// The value at position `i`: `None` outside `0..32` or where the mask bit is clear.
    pub open spec fn value_at(self, i: int) -> Option<bool> {
        if 0 <= i < 32 {
            self.widen().value_at(i)
        } else {
            None
        }
    }

    /// The same positions in the 64-bit container.
    pub fn to_values(&self) -> (r: Values)
        ensures
            r == self.widen(),
    {
        Masked { bits: self.bits as u64, mask: self.mask as u64 }
    }

    /// Number of positions (`32`).
    pub fn bits(&self) -> (r: BitId)
        ensures
            r == 32,
    {
        32
    }

    /// Value of position `id`, or `None` where it is out of range or not masked.
    pub fn get(&self, id: BitId) -> (r: Option<bool>)
        ensures
            r == self.value_at(id as int),
    {
        if id >= 32 {
            return None;
        }
        self.to_values().get(id)
    }

    /// Sets position `id` to `val` and masks it; `None` clears both the value and the
    /// mask bit. Nothing changes where `id` is out of range.
    pub fn set(&mut self, id: BitId, val: Option<bool>)
        ensures
            id >= 32 ==> *final(self) == *old(self),
            id < 32 ==> final(self).widen() == old(self).widen().spec_with(id, val),
    {
        if id >= 32 {
            return;
        }
        let w = self.to_values().with(id, val);
        proof {
            assert(1u64 << 32u64 == 0x1_0000_0000u64) by (bit_vector);
            lemma_with_bit_below(self.bits as u64, id as u64, val == Some(true), 32u64);
            lemma_with_bit_below(self.mask as u64, id as u64, val is Some, 32u64);
        }
        self.bits = w.bits as u32;
        self.mask = w.mask as u32;
    }

    /// Copy with position `id` set to `val`, as `set` does.
    pub fn with(self, id: BitId, val: Option<bool>) -> (r: Self)
        ensures
            id >= 32 ==> r == self,
            id < 32 ==> r.widen() == self.widen().spec_with(id, val),
    {
        let mut r = self;
        r.set(id, val);
        r
    }

    /// Parses a pattern of at most 32 characters `0`, `1` and `x` (not set), most
    /// significant position first, with an optional `0b` prefix.
    pub fn parse(s: &str) -> (r: Result<Self>)
        ensures
            r is Ok <==> is_pattern(s@) && strip_prefix_0b(s@).len() <= 32,
            r is Ok ==> r->Ok_0.widen() == pattern_value(strip_prefix_0b(s@)),
            r is Err ==> r->Err_0.kind == ErrorKind::InvalidInput,
    {
        if pattern_len(s) > 32 {
            return Err(invalid_input("Too many line values"));
        }
        let v = Masked::<u64>::parse(s)?;
        proof {
            let t = strip_prefix_0b(s@);
            lemma_pattern_bound(t);
            lemma_shift_bound(t.len() as u64, 32u64);
            assert(1u64 << 32u64 == 0x1_0000_0000u64) by (bit_vector);
        }
        Ok(Masked { bits: v.bits as u32, mask: v.mask as u32 })
    }

    /// Renders the positions from the highest masked one down to `0` (at least one),
    /// as `1`, `0`, or `x` where the mask bit is clear.
    pub fn to_string(&self) -> (r: String)
        ensures
            r@ == self.widen().digits(),
    {
        self.to_values().to_string()
    }

    /// Renders as `to_string` does, with prefix and padding as `spec` asks.
    pub fn format_with(&self, spec: &FormatSpec) -> (r: String)
        ensures
            r@ == self.widen().formatted(*spec),
    {
        self.to_values().format_with(spec)
    }
}

impl Default for Masked<u32> {
    /// No position set.
    fn default() -> (r: Self)
        ensures
            r == (Masked { bits: 0 as u32, mask: 0 as u32 }),
    {
        Masked { bits: 0, mask: 0 }
    }
}

impl core::str::FromStr for Masked<u32> {
    type Err = Error;

    fn from_str(s: &str) -> Result<Self> {
        Masked::<u32>::parse(s)
    }
}

impl From<u32> for Masked<u32> {
    /// All 32 positions set to the bits of `bits`.
    fn from(bits: u32) -> (r: Self) {
        Masked { bits, mask: 0xffff_ffffu32 }
    }
}

impl vstd::std_specs::convert::FromSpecImpl<u32> for Masked<u32> {
    open spec fn obeys_from_spec() -> bool {
        true
    }

    open spec fn from_spec(v: u32) -> Self {
        Masked { bits: v, mask: 0xffff_ffffu32 }
    }
}

impl From<Masked<u32>> for u32 {
    /// The set positions; the others read as `0`.
    fn from(values: Masked<u32>) -> (r: u32) {
        values.bits & values.mask
    }
}

impl vstd::std_specs::convert::FromSpecImpl<Masked<u32>> for u32 {
    open spec fn obeys_from_spec() -> bool {
        true
    }

    open spec fn from_spec(v: Masked<u32>) -> u32 {
        v.bits & v.mask
    }
}

impl AsValues for Masked<u32> {
    open spec fn spec_bits(&self) -> nat {
        32
    }

    open spec fn spec_get(&self, id: int) -> Option<bool> {
        self.value_at(id)
    }

    fn bits(&self) -> (r: BitId) {
        32
    }

    fn get(&self, id: BitId) -> (r: Option<bool>) {
        Masked::<u32>::get(self, id)
    }
}

impl AsValuesMut for Masked<u32> {
    fn set(&mut self, id: BitId, val: Option<bool>) {
        let ghost before = *self;
        Masked::<u32>::set(self, id, val);
        proof {
            lemma_value_after_with(before.widen(), id, val);
        }
    }
}

impl Default for Masked<u64> {
    /// No position set.
    fn default() -> (r: Self)
        ensures
            r == (Masked { bits: 0u64, mask: 0u64 }),
    {
        Masked { bits: 0, mask: 0 }
    }
}

impl core::str::FromStr for Masked<u64> {
    type Err = Error;

    fn from_str(s: &str) -> Result<Self> {
        Masked::<u64>::parse(s)
    }
}

impl From<u64> for Masked<u64> {
    /// All 64 positions set to the bits of `bits`.
    fn from(bits: u64) -> (r: Self) {
        Masked { bits, mask: 0xffff_ffff_ffff_ffffu64 }
    }
}

impl vstd::std_specs::convert::FromSpecImpl<u64> for Masked<u64> {
    open spec fn obeys_from_spec() -> bool {
        true
    }

    open spec fn from_spec(v: u64) -> Self {
        Masked { bits: v, mask: 0xffff_ffff_ffff_ffffu64 }
    }
}

impl From<u32> for Masked<u64> {
    /// The 32 low positions set to the bits of `bits`.
    fn from(bits: u32) -> (r: Self) {
        Masked { bits: bits as u64, mask: 0xffff_ffffu64 }
    }
}

impl vstd::std_specs::convert::FromSpecImpl<u32> for Masked<u64> {
    open spec fn obeys_from_spec() -> bool {
        true
    }

    open spec fn from_spec(v: u32) -> Self {
        Masked { bits: v as u64, mask: 0xffff_ffffu64 }
    }
}

impl From<u16> for Masked<u64> {
    /// The 16 low positions set to the bits of `bits`.
    fn from(bits: u16) -> (r: Self) {
        Masked { bits: bits as u64, mask: 0xffffu64 }
    }
}

impl vstd::std_specs::convert::FromSpecImpl<u16> for Masked<u64> {
    open spec fn obeys_from_spec() -> bool {
        true
    }

    open spec fn from_spec(v: u16) -> Self {
        Masked { bits: v as u64, mask: 0xffffu64 }
    }
}

impl From<u8> for Masked<u64> {
    /// The 8 low positions set to the bits of `bits`.
    fn from(bits: u8) -> (r: Self) {
        Masked { bits: bits as u64, mask: 0xffu64 }
    }
}

impl vstd::std_specs::convert::FromSpecImpl<u8> for Masked<u64> {
    open spec fn obeys_from_spec() -> bool {
        true
    }

    open spec fn from_spec(v: u8) -> Self {
        Masked { bits: v as u64, mask: 0xffu64 }
    }
}

impl From<Masked<u64>> for u64 {
    /// The set positions; the others read as `0`.
    fn from(values: Masked<u64>) -> (r: u64) {
        values.bits & values.mask
    }
}

impl vstd::std_specs::convert::FromSpecImpl<Masked<u64>> for u64 {
    open spec fn obeys_from_spec() -> bool {
        true
    }

    open spec fn from_spec(v: Masked<u64>) -> u64 {
        v.bits & v.mask
    }
}

impl From<Masked<u64>> for u32 {
    /// The 32 low set positions; the others read as `0`.
    fn from(values: Masked<u64>) -> (r: u32) {
        let b = values.bits & values.mask;
        let v = b & 0xffff_ffffu64;
        assert(b & 0xffff_ffffu64 <= 0xffff_ffffu64) by (bit_vector);
        v as u32
    }
}

impl vstd::std_specs::convert::FromSpecImpl<Masked<u64>> for u32 {
    open spec fn obeys_from_spec() -> bool {
        true
    }

    open spec fn from_spec(v: Masked<u64>) -> u32 {
        (v.bits & v.mask & 0xffff_ffffu64) as u32
    }
}

impl From<Masked<u64>> for u16 {
    /// The 16 low set positions; the others read as `0`.
    fn from(values: Masked<u64>) -> (r: u16) {
        let b = values.bits & values.mask;
        let v = b & 0xffffu64;
        assert(b & 0xffffu64 <= 0xffffu64) by (bit_vector);
        v as u16
    }
}

impl vstd::std_specs::convert::FromSpecImpl<Masked<u64>> for u16 {
    open spec fn obeys_from_spec() -> bool {
        true
    }

    open spec fn from_spec(v: Masked<u64>) -> u16 {
        (v.bits & v.mask & 0xffffu64) as u16
    }
}

impl From<Masked<u64>> for u8 {
    /// The 8 low set positions; the others read as `0`.
    fn from(values: Masked<u64>) -> (r: u8) {
        let b = values.bits & values.mask;
        let v = b & 0xffu64;
        assert(b & 0xffu64 <= 0xffu64) by (bit_vector);
        v as u8
    }
}

impl vstd::std_specs::convert::FromSpecImpl<Masked<u64>> for u8 {
    open spec fn obeys_from_spec() -> bool {
        true
    }

    open spec fn from_spec(v: Masked<u64>) -> u8 {
        (v.bits & v.mask & 0xffu64) as u8
    }
}

} // verus!
