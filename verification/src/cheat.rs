use vstd::prelude::*;

verus! {

broadcast use vstd::string::group_string_axioms;

/// A decoded Game Genie code: the CPU address it patches, the byte it
/// substitutes, and for eight-letter codes the byte that must be there.
#[derive(Clone, Copy, Debug, PartialEq, Eq, Structural)]
pub struct GameGenieCode {
    pub address: u16,
    pub replacement: u8,
    pub compare: Option<u8>,
}

/// Why a Game Genie code could not be parsed.
#[derive(Clone, Copy, Debug, PartialEq, Eq, Structural)]
pub enum GameGenieCodeError {
    InvalidLength(usize),
    InvalidCharacter { position: usize, character: char },
}

/// The 4-bit value of a Game Genie letter, in either case.
pub open spec fn letter_value(c: char) -> Option<u8> {
    if c == 'A' || c == 'a' {
        Some(0x0)
    } else if c == 'P' || c == 'p' {
        Some(0x1)
    } else if c == 'Z' || c == 'z' {
        Some(0x2)
    } else if c == 'L' || c == 'l' {
        Some(0x3)
    } else if c == 'G' || c == 'g' {
        Some(0x4)
    } else if c == 'I' || c == 'i' {
        Some(0x5)
    } else if c == 'T' || c == 't' {
        Some(0x6)
    } else if c == 'Y' || c == 'y' {
        Some(0x7)
    } else if c == 'E' || c == 'e' {
        Some(0x8)
    } else if c == 'O' || c == 'o' {
        Some(0x9)
    } else if c == 'X' || c == 'x' {
        Some(0xA)
    } else if c == 'U' || c == 'u' {
        Some(0xB)
    } else if c == 'K' || c == 'k' {
        Some(0xC)
    } else if c == 'S' || c == 's' {
        Some(0xD)
    } else if c == 'V' || c == 'v' {
        Some(0xE)
    } else if c == 'N' || c == 'n' {
        Some(0xF)
    } else {
        None
    }
}

/// The position of the first character of `sym` that is not a code letter.
pub open spec fn first_invalid(sym: Seq<char>) -> Option<int>
    decreases sym.len(),
{
    if sym.len() == 0 {
        None
    } else {
        match first_invalid(sym.drop_last()) {
            Some(p) => Some(p),
            None => if letter_value(sym.last()) is None {
                Some(sym.len() - 1)
            } else {
                None
            },
        }
    }
}

/// The nibble of each letter.
pub open spec fn nibbles(sym: Seq<char>) -> Seq<u8> {
    Seq::new(sym.len(), |i: int| letter_value(sym[i]).unwrap())
}

/// The patched CPU address spread over letters 1 to 5 (always in `$8000-$FFFF`).
pub open spec fn code_address(n: Seq<u8>) -> u16 {
    0x8000u16 | (((n[3] & 7) as u16) << 12u16) | (((n[5] & 7) as u16) << 8u16) | (((n[4]
        & 8) as u16) << 8u16) | (((n[2] & 7) as u16) << 4u16) | (((n[1] & 8) as u16) << 4u16)
        | ((n[4] & 7) as u16) | ((n[3] & 8) as u16)
}

/// The replacement byte from letters 0, 1 and the last letter.
pub open spec fn code_replacement(n: Seq<u8>) -> u8 {
    let final_nibble = if n.len() == 6 { n[5] } else { n[7] };
    (((n[1] & 7) << 4u8) | ((n[0] & 8) << 4u8) | (n[0] & 7) | (final_nibble & 8)) as u8
}

/// The compare byte of an eight-letter code from letters 5, 6 and 7.
pub open spec fn code_compare(n: Seq<u8>) -> Option<u8> {
    if n.len() == 8 {
        Some((((n[7] & 7) << 4u8) | ((n[6] & 8) << 4u8) | (n[6] & 7) | (n[5] & 8)) as u8)
    } else {
        None
    }
}

/// What parsing the text `s` gives.
pub open spec fn spec_parse(s: Seq<char>) -> Result<GameGenieCode, GameGenieCodeError> {
    let sym = code_symbols(s);
    if sym.len() != 6 && sym.len() != 8 {
        Err(GameGenieCodeError::InvalidLength(sym.len() as usize))
    } else {
        match first_invalid(sym) {
            Some(p) => Err(
                GameGenieCodeError::InvalidCharacter { position: p as usize, character: sym[p] },
            ),
            None => {
                let n = nibbles(sym);
                Ok(
                    GameGenieCode {
                        address: code_address(n),
                        replacement: code_replacement(n),
                        compare: code_compare(n),
                    },
                )
            },
        }
    }
}

/// Characters the parser skips: the display separator `-` and ASCII whitespace.
pub open spec fn is_separator(c: char) -> bool {
    c == '-' || c == ' ' || c == '\t' || c == '\n' || c == '\x0C' || c == '\r'
}

/// The code letters of `s`: every character that is not a separator, in order.
pub open spec fn code_symbols(s: Seq<char>) -> Seq<char>
    decreases s.len(),
{
    if s.len() == 0 {
        s
    } else if is_separator(s.last()) {
        code_symbols(s.drop_last())
    } else {
        code_symbols(s.drop_last()).push(s.last())
    }
}

fn symbols_of(s: &str) -> (v: Vec<char>)
    ensures
        v@ == code_symbols(s@),
{
    let len = s.unicode_len();
    let mut v: Vec<char> = Vec::new();
    let mut i: usize = 0;
    while i < len
        invariant
            len == s@.len(),
            i <= len,
            v@ == code_symbols(s@.take(i as int)),
        decreases len - i,
    {
        let c = s.get_char(i);
        assert(s@.take(i + 1).drop_last() =~= s@.take(i as int));
        if !(c == '-' || c == ' ' || c == '\t' || c == '\n' || c == '\x0C' || c == '\r') {
            v.push(c);
        }
        i += 1;
    }
    assert(s@.take(len as int) =~= s@);
    v
}

fn decode_character(c: char) -> (r: Option<u8>)
    ensures
        r == letter_value(c),
        r matches Some(v) ==> v < 16,
{
    if c == 'A' || c == 'a' {
        Some(0x0)
    } else if c == 'P' || c == 'p' {
        Some(0x1)
    } else if c == 'Z' || c == 'z' {
        Some(0x2)
    } else if c == 'L' || c == 'l' {
        Some(0x3)
    } else if c == 'G' || c == 'g' {
        Some(0x4)
    } else if c == 'I' || c == 'i' {
        Some(0x5)
    } else if c == 'T' || c == 't' {
        Some(0x6)
    } else if c == 'Y' || c == 'y' {
        Some(0x7)
    } else if c == 'E' || c == 'e' {
        Some(0x8)
    } else if c == 'O' || c == 'o' {
        Some(0x9)
    } else if c == 'X' || c == 'x' {
        Some(0xA)
    } else if c == 'U' || c == 'u' {
        Some(0xB)
    } else if c == 'K' || c == 'k' {
        Some(0xC)
    } else if c == 'S' || c == 's' {
        Some(0xD)
    } else if c == 'V' || c == 'v' {
        Some(0xE)
    } else if c == 'N' || c == 'n' {
        Some(0xF)
    } else {
        None
    }
}

impl GameGenieCode {
    pub fn address(self) -> (a: u16)
        ensures
            a == self.address,
    {
        self.address
    }

    pub fn replacement(self) -> (r: u8)
        ensures
            r == self.replacement,
    {
        self.replacement
    }

    pub fn compare(self) -> (c: Option<u8>)
        ensures
            c == self.compare,
    {
        self.compare
    }

    pub open spec fn spec_apply(self, address: u16, original: u8) -> Option<u8> {
        if address != self.address {
            None
        } else if self.compare matches Some(c) && c != original {
            None
        } else {
            Some(self.replacement)
        }
    }

    /// The byte a CPU read of `address` sees with this code active, if the
    /// code applies there: the address must match, and an eight-letter code
    /// also needs the ROM byte `original` to equal its compare byte.
    pub fn apply(self, address: u16, original: u8) -> (r: Option<u8>)
        ensures
            r == self.spec_apply(address, original),
    {
        if address != self.address {
            return None;
        }
        if let Some(compare) = self.compare {
            if compare != original {
                return None;
            }
        }
        Some(self.replacement)
    }

    /// Parses a six- or eight-letter code; `-` and ASCII whitespace are
    /// ignored and letters may be in either case.
    pub fn parse(s: &str) -> (r: Result<Self, GameGenieCodeError>)
        ensures
            r == spec_parse(s@),
    {
        let symbols = symbols_of(s);
        let length = symbols.len();

        if length != 6 && length != 8 {
            return Err(GameGenieCodeError::InvalidLength(length));
        }

        let mut n: Vec<u8> = Vec::new();
        let mut position: usize = 0;
        while position < length
            invariant
                symbols@ == code_symbols(s@),
                length == symbols@.len(),
                length == 6 || length == 8,
                position <= length,
                first_invalid(symbols@.take(position as int)) is None,
                n@ == nibbles(symbols@.take(position as int)),
                forall|i: int| 0 <= i < n@.len() ==> n@[i] < 16,
            decreases length - position,
        {
            let character = symbols[position];
            assert(symbols@.take(position + 1).drop_last() =~= symbols@.take(position as int));
            match decode_character(character) {
                Some(value) => {
                    n.push(value);
                    position += 1;
                    assert(n@ =~= nibbles(symbols@.take(position as int)));
                },
                None => {
                    proof {
                        lemma_first_invalid_extend(symbols@, position as int);
                    }
                    return Err(GameGenieCodeError::InvalidCharacter { position, character });
                },
            }
        }
        proof {
            assert(symbols@.take(length as int) =~= symbols@);
        }

        let address = 0x8000u16 | (((n[3] & 7) as u16) << 12u16) | (((n[5] & 7) as u16) << 8u16)
            | (((n[4] & 8) as u16) << 8u16) | (((n[2] & 7) as u16) << 4u16) | (((n[1] & 8) as u16)
            << 4u16) | ((n[4] & 7) as u16) | ((n[3] & 8) as u16);

        let final_nibble = if length == 6 { n[5] } else { n[7] };
        let replacement = ((n[1] & 7) << 4u8) | ((n[0] & 8) << 4u8) | (n[0] & 7) | (final_nibble & 8);

        let compare = if length == 8 {
            Some(((n[7] & 7) << 4u8) | ((n[6] & 8) << 4u8) | (n[6] & 7) | (n[5] & 8))
        } else {
            None
        };

        Ok(GameGenieCode { address, replacement, compare })
    }
}

/// Once a prefix has no invalid letter, the first invalid letter of the next
/// prefix is its new last character, if that character is not a letter.
proof fn lemma_first_invalid_extend(sym: Seq<char>, p: int)
    requires
        0 <= p < sym.len(),
        first_invalid(sym.take(p)) is None,
        letter_value(sym[p]) is None,
    ensures
        first_invalid(sym) == Some(p),
    decreases sym.len(),
{
    if p == sym.len() - 1 {
        assert(sym.drop_last() =~= sym.take(p));
    } else {
        assert(sym.drop_last().take(p) =~= sym.take(p));
        lemma_first_invalid_extend(sym.drop_last(), p);
    }
}

impl core::str::FromStr for GameGenieCode {
    type Err = GameGenieCodeError;

    fn from_str(s: &str) -> (r: Result<Self, Self::Err>)
        ensures
            r == spec_parse(s@),
    {
        Self::parse(s)
    }
}

/// The ASCII lower-case form of `c`.
pub open spec fn lower_char(c: char) -> char {
    if 'A' <= c && c <= 'Z' {
        ((c as u32) + 32) as char
    } else {
        c
    }
}

/// `s` with every ASCII capital letter in lower case.
pub open spec fn lower_text(s: Seq<char>) -> Seq<char> {
    s.map_values(|c: char| lower_char(c))
}

proof fn lemma_lower_char_keeps_meaning(c: char)
    ensures
        letter_value(lower_char(c)) == letter_value(c),
        is_separator(lower_char(c)) == is_separator(c),
{
}

proof fn lemma_symbols_of_lower_text(s: Seq<char>)
    ensures
        code_symbols(lower_text(s)) == lower_text(code_symbols(s)),
    decreases s.len(),
{
    if s.len() > 0 {
        assert(lower_text(s).drop_last() =~= lower_text(s.drop_last()));
        lemma_symbols_of_lower_text(s.drop_last());
        lemma_lower_char_keeps_meaning(s.last());
        if !is_separator(s.last()) {
            assert(lower_text(code_symbols(s.drop_last()).push(s.last())) =~= lower_text(
                code_symbols(s.drop_last()),
            ).push(lower_char(s.last())));
        }
    } else {
        assert(lower_text(s) =~= s);
    }
}

proof fn lemma_first_invalid_of_lower_text(sym: Seq<char>)
    ensures
        first_invalid(lower_text(sym)) == first_invalid(sym),
    decreases sym.len(),
{
    if sym.len() > 0 {
        assert(lower_text(sym).drop_last() =~= lower_text(sym.drop_last()));
        lemma_first_invalid_of_lower_text(sym.drop_last());
        lemma_lower_char_keeps_meaning(sym.last());
    }
}

proof fn lemma_first_invalid_in_range(sym: Seq<char>)
    ensures
        first_invalid(sym) matches Some(p) ==> 0 <= p < sym.len(),
    decreases sym.len(),
{
    if sym.len() > 0 {
        lemma_first_invalid_in_range(sym.drop_last());
    }
}

/// Letter case does not matter: the lower-case form of a text parses to the
/// same code, and is refused for the same reason (an invalid character is
/// reported in lower case).
pub proof fn lemma_parse_ignores_case(s: Seq<char>)
    ensures
        spec_parse(lower_text(s)) == match spec_parse(s) {
            Err(GameGenieCodeError::InvalidCharacter { position, character }) => Err(
                GameGenieCodeError::InvalidCharacter { position, character: lower_char(character) },
            ),
            r => r,
        },
{
    let sym = code_symbols(s);
    lemma_symbols_of_lower_text(s);
    lemma_first_invalid_of_lower_text(sym);
    assert forall|i: int| 0 <= i < sym.len() implies #[trigger] letter_value(lower_text(sym)[i])
        == letter_value(sym[i]) by {
        lemma_lower_char_keeps_meaning(sym[i]);
    }
    assert(nibbles(lower_text(sym)) =~= nibbles(sym));
    lemma_first_invalid_in_range(sym);
    if let Some(p) = first_invalid(sym) {
        assert(lower_text(sym)[p] == lower_char(sym[p]));
    }
}

proof fn lemma_symbols_skip_separator(s: Seq<char>, i: int, c: char)
    requires
        0 <= i <= s.len(),
        is_separator(c),
    ensures
        code_symbols(s.insert(i, c)) == code_symbols(s),
    decreases s.len(),
{
    if i == s.len() {
        assert(s.insert(i, c).drop_last() =~= s);
    } else {
        assert(s.insert(i, c).drop_last() =~= s.drop_last().insert(i, c));
        assert(s.insert(i, c).last() == s.last());
        lemma_symbols_skip_separator(s.drop_last(), i, c);
    }
}

/// A separator (`-` or ASCII whitespace) put anywhere in a text changes
/// nothing about what it parses to.
pub proof fn lemma_parse_ignores_separators(s: Seq<char>, i: int, c: char)
    requires
        0 <= i <= s.len(),
        is_separator(c),
    ensures
        spec_parse(s.insert(i, c)) == spec_parse(s),
{
    lemma_symbols_skip_separator(s, i, c);
}

/// Two texts with the same code letters up to case, whatever separators
/// stand between them, parse to the same code, or are both refused.
pub proof fn lemma_parse_ignores_case_and_separators(s1: Seq<char>, s2: Seq<char>)
    requires
        lower_text(code_symbols(s1)) == lower_text(code_symbols(s2)),
    ensures
        spec_parse(s1) is Ok <==> spec_parse(s2) is Ok,
        spec_parse(s1) is Ok ==> spec_parse(s1) == spec_parse(s2),
{
    lemma_parse_ignores_case(s1);
    lemma_parse_ignores_case(s2);
    lemma_symbols_of_lower_text(s1);
    lemma_symbols_of_lower_text(s2);
    assert(spec_parse(lower_text(s1)) == spec_parse(lower_text(s2)));
}

proof fn lemma_genie_bits(n0: u8, n1: u8, n2: u8, n3: u8, n4: u8, n5: u8, n6: u8, n7: u8)
    by (bit_vector)
    requires
        n0 < 16,
        n1 < 16,
        n2 < 16,
        n3 < 16,
        n4 < 16,
        n5 < 16,
        n6 < 16,
        n7 < 16,
    ensures
        0x8000u16 | (((n3 & 7) as u16) << 12u16) | (((n5 & 7) as u16) << 8u16) | (((n4 & 8) as u16) << 8u16)
            | (((n2 & 7) as u16) << 4u16) | (((n1 & 8) as u16) << 4u16) | ((n4 & 7) as u16) | ((n3
            & 8) as u16) == 0x8000 + 0x1000 * (n3 % 8) + 0x800 * (n4 / 8) + 0x100 * (n5 % 8) + 0x80 * (n1
            / 8) + 0x10 * (n2 % 8) + 8 * (n3 / 8) + n4 % 8,
        (((n1 & 7) << 4u8) | ((n0 & 8) << 4u8) | (n0 & 7) | (n5 & 8)) == 0x80 * (n0 / 8) + 0x10 * (n1
            % 8) + 8 * (n5 / 8) + n0 % 8,
        (((n1 & 7) << 4u8) | ((n0 & 8) << 4u8) | (n0 & 7) | (n7 & 8)) == 0x80 * (n0 / 8) + 0x10 * (n1
            % 8) + 8 * (n7 / 8) + n0 % 8,
        (((n7 & 7) << 4u8) | ((n6 & 8) << 4u8) | (n6 & 7) | (n5 & 8)) == 0x80 * (n6 / 8) + 0x10 * (n7
            % 8) + 8 * (n5 / 8) + n6 % 8,
{
}

/// The Game Genie bit layout, with `n` the 4-bit values of the code's
/// letters in order: the address is `$8000` plus bits 14-12 from letter 3,
/// bit 11 from the high bit of letter 4, bits 10-8 from letter 5, bit 7 from
/// the high bit of letter 1, bits 6-4 from letter 2, bit 3 from the high bit
/// of letter 3 and bits 2-0 from letter 4; the replacement byte takes bit 7
/// from the high bit of letter 0, bits 6-4 from letter 1, bit 3 from the high
/// bit of the last letter and bits 2-0 from letter 0; an eight-letter code's
/// compare byte takes bit 7 from the high bit of letter 6, bits 6-4 from
/// letter 7, bit 3 from the high bit of letter 5 and bits 2-0 from letter 6.
pub proof fn lemma_code_bit_layout(s: Seq<char>)
    requires
        spec_parse(s) is Ok,
    ensures
        ({
            let n = nibbles(code_symbols(s));
            let code = spec_parse(s)->Ok_0;
            let last = n[n.len() - 1];
            &&& code.address == 0x8000 + 0x1000 * (n[3] % 8) + 0x800 * (n[4] / 8) + 0x100 * (n[5] % 8)
                + 0x80 * (n[1] / 8) + 0x10 * (n[2] % 8) + 8 * (n[3] / 8) + n[4] % 8
            &&& code.replacement == 0x80 * (n[0] / 8) + 0x10 * (n[1] % 8) + 8 * (last / 8) + n[0] % 8
            &&& code.compare == if n.len() == 8 {
                Some((0x80 * (n[6] / 8) + 0x10 * (n[7] % 8) + 8 * (n[5] / 8) + n[6] % 8) as u8)
            } else {
                None
            }
        }),
{
    let sym = code_symbols(s);
    let n = nibbles(sym);
    lemma_first_invalid_all_valid(sym);
    assert forall|i: int| 0 <= i < sym.len() implies #[trigger] n[i] < 16 by {
        assert(letter_value(sym[i]) is Some);
    }
    if n.len() == 8 {
        lemma_genie_bits(n[0], n[1], n[2], n[3], n[4], n[5], n[6], n[7]);
    } else {
        lemma_genie_bits(n[0], n[1], n[2], n[3], n[4], n[5], 0, 0);
    }
}

proof fn lemma_first_invalid_all_valid(sym: Seq<char>)
    ensures
        first_invalid(sym) is None ==> forall|i: int| 0 <= i < sym.len() ==> #[trigger] letter_value(sym[i])
            is Some,
    decreases sym.len(),
{
    if sym.len() > 0 {
        lemma_first_invalid_all_valid(sym.drop_last());
        if first_invalid(sym) is None {
            assert forall|i: int| 0 <= i < sym.len() implies #[trigger] letter_value(sym[i]) is Some by {
                if i < sym.len() - 1 {
                    assert(sym[i] == sym.drop_last()[i]);
                }
            }
        }
    }
}

} // verus!
