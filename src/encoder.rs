//! The encoder: text in, a bounded sequence of units out. Each letter or
//! digit becomes a unit holding its symbol, each space an empty-symbol word
//! separator; every other character is left out.
use vstd::prelude::*;

use crate::table::{
    code_at, is_supported, is_symbol, lemma_code_at_is_symbol, lookup, spec_lookup, table_index,
    MAX_SYMBOL_LEN,
};

verus! {

/// Most units one message may hold.
pub const CAPACITY: usize = 32;

#[verifier::external_type_specification]
#[verifier::external_body]
#[verifier::reject_recursive_types(T)]
pub struct ExHeaplessVec<T, const N: usize>(heapless::Vec<T, N>);

/// The units a bounded buffer holds, in order.
pub uninterp spec fn buffer_units(v: heapless::Vec<(char, &'static str), CAPACITY>) -> Seq<
    (char, &'static str),
>;

/// Relies on heapless::Vec::new: a new buffer holds nothing.
#[verifier::external_body]
fn empty_units() -> (r: heapless::Vec<(char, &'static str), CAPACITY>)
    ensures
        buffer_units(r) == Seq::<(char, &'static str)>::empty(),
{
    heapless::Vec::new()
}

/// Relies on heapless::Vec::push: below capacity the item is appended,
/// at capacity it is handed back and the buffer is left as it was.
#[verifier::external_body]
fn push_unit(v: &mut heapless::Vec<(char, &'static str), CAPACITY>, item: (char, &'static str)) -> (r:
    Result<(), (char, &'static str)>)
    ensures
        buffer_units(*old(v)).len() < CAPACITY ==> (r is Ok && buffer_units(*final(v))
            == buffer_units(*old(v)).push(item)),
        buffer_units(*old(v)).len() >= CAPACITY ==> (r == Err::<(), (char, &'static str)>(item)
            && buffer_units(*final(v)) == buffer_units(*old(v))),
{
    v.push(item)
}

/// Relies on heapless::Vec::as_slice: the held units, in order.
#[verifier::external_body]
fn units_slice<'a>(v: &'a heapless::Vec<(char, &'static str), CAPACITY>) -> (r: &'a [(char, &'static str)])
    ensures
        r@ == buffer_units(*v),
{
    v.as_slice()
}

/// The units as characters and symbol sequences.
pub open spec fn units_view(u: Seq<(char, &'static str)>) -> Seq<(char, Seq<char>)> {
    u.map_values(|p: (char, &'static str)| (p.0, p.1@))
}

/// The unit that one input character contributes, if any.
pub open spec fn unit_of(c: char) -> Option<(char, Seq<char>)> {
    if c == ' ' {
        Some((' ', Seq::empty()))
    } else if is_supported(c) {
        Some((c, code_at(table_index(c))))
    } else {
        None
    }
}

/// The encoding of a text: its units, in input order, without any bound.
pub open spec fn spec_encode(s: Seq<char>) -> Seq<(char, Seq<char>)>
    decreases s.len(),
{
    if s.len() == 0 {
        Seq::empty()
    } else {
        let prev = spec_encode(s.drop_last());
        match unit_of(s.last()) {
            Some(u) => prev.push(u),
            None => prev,
        }
    }
}

/// Every unit is what its own character contributes.
pub open spec fn units_wf(u: Seq<(char, Seq<char>)>) -> bool {
    forall|k: int| 0 <= k < u.len() ==> unit_of(#[trigger] u[k].0) == Some(u[k])
}

/// Every unit of an encoding is what its character contributes.
pub proof fn lemma_encode_wf(s: Seq<char>)
    ensures
        units_wf(spec_encode(s)),
    decreases s.len(),
{
    if s.len() > 0 {
        lemma_encode_wf(s.drop_last());
    }
}

/// What a contributed unit is made of: a space with an empty symbol, or a
/// letter or digit with a symbol of at most `MAX_SYMBOL_LEN` dots and dashes.
pub proof fn lemma_unit_shape(c: char)
    requires
        unit_of(c) is Some,
    ensures
        unit_of(c)->Some_0.0 == c,
        (c as int) < 128,
        c == ' ' ==> unit_of(c)->Some_0.1.len() == 0,
        c != ' ' ==> is_symbol(unit_of(c)->Some_0.1),
        unit_of(c)->Some_0.1.len() <= MAX_SYMBOL_LEN,
{
    if c != ' ' {
        lemma_code_at_is_symbol(table_index(c));
    }
}

/// Encoding a concatenation encodes each part in turn.
pub proof fn lemma_encode_concat(x: Seq<char>, y: Seq<char>)
    ensures
        spec_encode(x + y) == spec_encode(x) + spec_encode(y),
    decreases y.len(),
{
    if y.len() == 0 {
        assert(x + y == x);
        assert(spec_encode(x) + spec_encode(y) == spec_encode(x));
    } else {
        assert((x + y).drop_last() == x + y.drop_last());
        assert((x + y).last() == y.last());
        lemma_encode_concat(x, y.drop_last());
        match unit_of(y.last()) {
            Some(u) => {
                assert(spec_encode(x) + spec_encode(y.drop_last()).push(u) == (spec_encode(x)
                    + spec_encode(y.drop_last())).push(u));
            },
            None => {},
        }
    }
}

/// A text of letters, digits and spaces encodes to one unit per character,
/// in order: a space to an empty symbol, any other character to its symbol
/// in the table. Such a text of at most `CAPACITY` characters therefore fits
/// in one message.
pub proof fn lemma_encode_supported(s: Seq<char>)
    requires
        forall|k: int| 0 <= k < s.len() ==> (#[trigger] s[k] == ' ' || is_supported(s[k])),
    ensures
        spec_encode(s).len() == s.len(),
        forall|k: int|
            0 <= k < s.len() ==> {
                &&& (#[trigger] spec_encode(s)[k]).0 == s[k]
                &&& s[k] == ' ' ==> spec_encode(s)[k].1.len() == 0
                &&& s[k] != ' ' ==> spec_lookup(s[k]) == Some(spec_encode(s)[k].1)
            },
    decreases s.len(),
{
    if s.len() > 0 {
        let p = s.drop_last();
        assert(forall|k: int| 0 <= k < p.len() ==> #[trigger] p[k] == s[k]);
        lemma_encode_supported(p);
    }
}

/// Characters that are neither letters, digits nor spaces contribute
/// nothing: taking one out of a text leaves its encoding as it was, and
/// every unit of an encoding comes from a letter, a digit or a space.
pub proof fn lemma_encode_skips_unsupported(a: Seq<char>, c: char, b: Seq<char>)
    requires
        c != ' ',
        !is_supported(c),
    ensures
        spec_encode(a + seq![c] + b) == spec_encode(a + b),
        forall|k: int|
            0 <= k < spec_encode(a + seq![c] + b).len() ==> {
                let ch = (#[trigger] spec_encode(a + seq![c] + b)[k]).0;
                ch == ' ' || is_supported(ch)
            },
{
    lemma_encode_concat(a + seq![c], b);
    lemma_encode_concat(a, b);
    lemma_encode_concat(a, seq![c]);
    assert(seq![c].drop_last() == Seq::<char>::empty());
    assert(seq![c].last() == c);
    assert(spec_encode(Seq::<char>::empty()) == Seq::<(char, Seq<char>)>::empty());
    assert(spec_encode(seq![c]) == Seq::<(char, Seq<char>)>::empty());
    assert(spec_encode(a) + spec_encode(seq![c]) == spec_encode(a));
    lemma_encode_wf(a + seq![c] + b);
}

/// Why a text could not be encoded.
#[derive(Debug, Clone, Copy, PartialEq, Eq, Structural)]
pub enum EncodeError {
    /// The text has more units than one message holds.
    CapacityExceeded,
}

/// An encoded message: at most `CAPACITY` units of a character and its
/// symbol, an empty symbol marking a word separator.
#[derive(Debug)]
pub struct EncodedMessage {
    units: heapless::Vec<(char, &'static str), CAPACITY>,
}

impl View for EncodedMessage {
    type V = Seq<(char, Seq<char>)>;

    closed spec fn view(&self) -> Seq<(char, Seq<char>)> {
        units_view(buffer_units(self.units))
    }
}

impl EncodedMessage {
    /// A message holds at most `CAPACITY` units, each what its character contributes.
    pub open spec fn wf(&self) -> bool {
        self@.len() <= CAPACITY && units_wf(self@)
    }

    /// The message with no unit.
    pub fn empty() -> (r: EncodedMessage)
        ensures
            r@ == Seq::<(char, Seq<char>)>::empty(),
            r.wf(),
    {
        let r = EncodedMessage { units: empty_units() };
        assert(r@ =~= Seq::<(char, Seq<char>)>::empty());
        r
    }

    /// The units in order, each a character and its symbol string.
    pub fn units(&self) -> (r: &[(char, &'static str)])
        ensures
            units_view(r@) == self@,
    {
        units_slice(&self.units)
    }

    /// The number of units.
    pub fn len(&self) -> (r: usize)
        ensures
            r == self@.len(),
    {
        units_slice(&self.units).len()
    }

    /// Whether the message has no unit.
    pub fn is_empty(&self) -> (r: bool)
        ensures
            r == (self@.len() == 0),
    {
        self.len() == 0
    }
}

/// Encoding a prefix gives no more units than encoding the whole text.
proof fn lemma_encode_prefix_len(s: Seq<char>, i: int)
    requires
        0 <= i <= s.len(),
    ensures
        spec_encode(s.subrange(0, i)).len() <= spec_encode(s).len(),
    decreases s.len(),
{
    if i < s.len() {
        assert(s.drop_last().subrange(0, i) == s.subrange(0, i));
        lemma_encode_prefix_len(s.drop_last(), i);
    } else {
        assert(s.subrange(0, i) == s);
    }
}

/// Encodes `text`: one unit per letter or digit, in order, with its symbol;
/// one empty-symbol unit per space; nothing for any other character.
/// Fails with `CapacityExceeded`, and yields no units, where the text has
/// more than `CAPACITY` units.
pub fn encode(text: &str) -> (r: Result<EncodedMessage, EncodeError>)
    ensures
        match r {
            Ok(m) => m@ == spec_encode(text@) && spec_encode(text@).len() <= CAPACITY && m.wf(),
            Err(e) => e == EncodeError::CapacityExceeded && spec_encode(text@).len() > CAPACITY,
        },
{
    let n = text.unicode_len();
    let mut units = empty_units();
    let mut i: usize = 0;
    proof {
        reveal_strlit("");
        assert(text@.subrange(0, 0) == Seq::<char>::empty());
    }
    while i < n
        invariant
            n == text@.len(),
            i <= n,
            buffer_units(units).len() <= CAPACITY,
            units_view(buffer_units(units)) == spec_encode(text@.subrange(0, i as int)),
        decreases n - i,
    {
        let c = text.get_char(i);
        let ghost before = buffer_units(units);
        proof {
            reveal_strlit("");
        }
        assert(text@.subrange(0, i + 1).drop_last() == text@.subrange(0, i as int));
        assert(text@.subrange(0, i + 1).last() == c);
        let item: Option<(char, &'static str)> = if c == ' ' {
            Some((' ', ""))
        } else {
            match lookup(c) {
                Some(code) => Some((c, code)),
                None => None,
            }
        };
        match item {
            Some(u) => {
                match push_unit(&mut units, u) {
                    Ok(()) => {
                        assert(unit_of(c) == Some((u.0, u.1@)));
                        assert(units_view(buffer_units(units)) =~= units_view(before).push(
                            (u.0, u.1@),
                        ));
                    },
                    Err(_) => {
                        proof {
                            lemma_encode_prefix_len(text@, i + 1);
                        }
                        return Err(EncodeError::CapacityExceeded);
                    },
                }
            },
            None => {
                assert(unit_of(c) is None);
            },
        }
        i = i + 1;
    }
    assert(text@.subrange(0, n as int) == text@);
    proof {
        lemma_encode_wf(text@);
    }
    Ok(EncodedMessage { units })
}

} // verus!
