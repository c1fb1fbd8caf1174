use vstd::prelude::*;
use crate::labels::{first_match, lemma_first_match_skip};

verus! {

/// A physical key-code table: the code that cancels a selection, and the
/// codes that stand for label characters.
pub struct KeyTable {
    escape: u8,
    keys: Vec<(u8, char)>,
}

impl KeyTable {
    pub closed spec fn escape_code(&self) -> u8 {
        self.escape
    }

    pub closed spec fn entries(&self) -> Seq<(u8, char)> {
        self.keys@
    }

    pub fn new(escape: u8, keys: Vec<(u8, char)>) -> (r: KeyTable)
        ensures
            r.escape_code() == escape,
            r.entries() == keys@,
    {
        KeyTable { escape, keys }
    }

    /// The table of a common PC keyboard: Escape, the letter rows and the digit row.
    pub fn standard() -> (r: KeyTable)
        ensures
            r.escape_code() == 9,
            r.entries() == standard_keys(),
    {
        KeyTable {
            escape: 9,
            keys: vec![
                (38, 'a'), (56, 'b'), (54, 'c'), (40, 'd'), (26, 'e'), (41, 'f'),
                (42, 'g'), (43, 'h'), (31, 'i'), (44, 'j'), (45, 'k'), (46, 'l'),
                (58, 'm'), (57, 'n'), (32, 'o'), (33, 'p'), (24, 'q'), (27, 'r'),
                (39, 's'), (28, 't'), (30, 'u'), (55, 'v'), (25, 'w'), (53, 'x'),
                (29, 'y'), (52, 'z'), (10, '1'), (11, '2'), (12, '3'), (13, '4'),
                (14, '5'), (15, '6'), (16, '7'), (17, '8'), (18, '9'), (19, '0'),
            ],
        }
    }

    pub fn escape(&self) -> (r: u8)
        ensures
            r == self.escape_code(),
    {
        self.escape
    }

    /// The label character of a key code, if the table has one.
    pub fn char_for(&self, code: u8) -> (r: Option<char>)
        ensures
            r == first_match(self.entries(), code),
    {
        let mut i: usize = 0;
        assert(self.keys@.subrange(0, self.keys@.len() as int) =~= self.keys@);
        while i < self.keys.len()
            invariant
                i <= self.keys.len(),
                first_match(self.keys@, code) == first_match(
                    self.keys@.subrange(i as int, self.keys@.len() as int),
                    code,
                ),
            decreases self.keys.len() - i,
        {
            if self.keys[i].0 == code {
                assert(self.keys@.subrange(i as int, self.keys@.len() as int)[0]
                    == self.keys@[i as int]);
                return Some(self.keys[i].1);
            }
            proof {
                lemma_first_match_skip(self.keys@, i as int, code);
            }
            i += 1;
        }
        None
    }
}

/// The entries of `KeyTable::standard`.
pub open spec fn standard_keys() -> Seq<(u8, char)> {
    seq![
        (38u8, 'a'), (56u8, 'b'), (54u8, 'c'), (40u8, 'd'), (26u8, 'e'), (41u8, 'f'),
        (42u8, 'g'), (43u8, 'h'), (31u8, 'i'), (44u8, 'j'), (45u8, 'k'), (46u8, 'l'),
        (58u8, 'm'), (57u8, 'n'), (32u8, 'o'), (33u8, 'p'), (24u8, 'q'), (27u8, 'r'),
        (39u8, 's'), (28u8, 't'), (30u8, 'u'), (55u8, 'v'), (25u8, 'w'), (53u8, 'x'),
        (29u8, 'y'), (52u8, 'z'), (10u8, '1'), (11u8, '2'), (12u8, '3'), (13u8, '4'),
        (14u8, '5'), (15u8, '6'), (16u8, '7'), (17u8, '8'), (18u8, '9'), (19u8, '0'),
    ]
}

} // verus!
