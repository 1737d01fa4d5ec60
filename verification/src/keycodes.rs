//! The two keycode tables consulted by the keystroke-log decoder.
//!
//! A single byte below the escape marker decodes through a 256-entry table
//! built from layered overrides (hex fallback, control keys, printable
//! characters, a few named control characters). A 2-byte code following the
//! escape marker decodes through an ordered list of insertions where a later
//! insertion for the same key silently overwrites an earlier one; that
//! "last write wins" order reproduces the historical drift of Vim's keycode
//! enumeration across versions.

use vstd::prelude::*;
use vstd::string::StringExecFns;

verus! {

/// The lowercase hex digit for a value below 16.
pub open spec fn hex_digit(n: int) -> char {
    if n < 10 {
        ((0x30 + n) as u8) as char
    } else {
        ((0x57 + n) as u8) as char
    }
}

/// The fallback token `<0xHH>` for a byte with no other name.
pub open spec fn hex_token(b: u8) -> Seq<char> {
    "<0x"@ + seq![hex_digit(b as int / 16), hex_digit(b as int % 16)] + ">"@
}

/// The control-key token `<C-X>`, where X's character code is the byte
/// XOR 0x40 (Vim stores Ctrl-X as ASCII(X) with bit 6 flipped).
pub open spec fn ctrl_token(b: u8) -> Seq<char> {
    "<C-"@ + seq![(b ^ 0x40) as char] + ">"@
}

/// The display token for one unescaped input byte: the four named control
/// characters win over the printable range, which wins over the control-key
/// layer, which wins over the hex fallback.
pub open spec fn single_token(b: u8) -> Seq<char> {
    if b == 0x1b {
        "<Esc>"@
    } else if b == 0x0d {
        "<CR>"@
    } else if b == 0x0a {
        "<NL>"@
    } else if b == 0x09 {
        "<Tab>"@
    } else if 32 <= b <= 126 {
        seq![b as char]
    } else if 1 <= b <= 127 {
        ctrl_token(b)
    } else {
        hex_token(b)
    }
}

/// Relies on String::push: appends one character to the end of the string.
#[verifier::external_body]
fn push_char(s: &mut String, c: char)
    ensures
        final(s)@ == old(s)@.push(c),
{
    s.push(c);
}

fn hex_char(d: u8) -> (c: char)
    requires
        d < 16,
    ensures
        c == hex_digit(d as int),
{
    if d < 10 {
        (0x30 + d) as char
    } else {
        (0x57 + d) as char
    }
}

fn hex_token_string(b: u8) -> (r: String)
    ensures
        r@ == hex_token(b),
{
    let mut s = String::from_str("<0x");
    push_char(&mut s, hex_char(b / 16));
    push_char(&mut s, hex_char(b % 16));
    s.append(">");
    proof {
        assert(s@ =~= hex_token(b));
    }
    s
}

fn ctrl_token_string(b: u8) -> (r: String)
    requires
        1 <= b <= 127,
    ensures
        r@ == ctrl_token(b),
{
    let mut s = String::from_str("<C-");
    push_char(&mut s, (b ^ 0x40) as char);
    s.append(">");
    proof {
        assert(s@ =~= ctrl_token(b));
    }
    s
}

/// The 256-entry mapping from one unescaped input byte to its display
/// token; immutable once constructed.
pub struct SingleByteTable {
    entries: Vec<String>,
}

impl SingleByteTable {
    /// The table holds exactly the tokens that `single_token` names.
    pub closed spec fn wf(&self) -> bool {
        &&& self.entries.len() == 256
        &&& forall|i: int| 0 <= i < 256 ==> self.entries[i]@ == single_token(i as u8)
    }

    /// Builds the table by layered overrides: hex fallback everywhere,
    /// control keys over 1..=127, printable characters over 32..=126, and
    /// four exact named control characters last.
    pub fn new() -> (r: Self)
        ensures
            r.wf(),
    {
        let mut entries: Vec<String> = Vec::new();
        let mut i: usize = 0;
        while i < 256
            invariant
                i <= 256,
                entries.len() == i,
                forall|j: int| 0 <= j < i ==> entries[j]@ == hex_token(j as u8),
            decreases 256 - i,
        {
            entries.push(hex_token_string(i as u8));
            i += 1;
        }
        let mut i: usize = 1;
        while i <= 127
            invariant
                1 <= i <= 128,
                entries.len() == 256,
                forall|j: int| 1 <= j < i ==> entries[j]@ == ctrl_token(j as u8),
                forall|j: int| j == 0 || i <= j < 256 ==> entries[j]@ == hex_token(j as u8),
            decreases 128 - i,
        {
            entries[i] = ctrl_token_string(i as u8);
            i += 1;
        }
        let mut i: usize = 32;
        while i <= 126
            invariant
                32 <= i <= 127,
                entries.len() == 256,
                forall|j: int| 32 <= j < i ==> entries[j]@ == seq![(j as u8) as char],
                forall|j: int| 1 <= j < 32 || i <= j < 128 ==> entries[j]@ == ctrl_token(j as u8),
                forall|j: int| j == 0 || 128 <= j < 256 ==> entries[j]@ == hex_token(j as u8),
            decreases 127 - i,
        {
            let mut s = String::new();
            push_char(&mut s, i as u8 as char);
            entries[i] = s;
            i += 1;
        }
        entries[0x1b] = String::from_str("<Esc>");
        entries[0x0d] = String::from_str("<CR>");
        entries[0x0a] = String::from_str("<NL>");
        entries[0x09] = String::from_str("<Tab>");
        Self { entries }
    }

    /// The display token for one unescaped byte.
    pub fn token(&self, b: u8) -> (r: &String)
        requires
            self.wf(),
        ensures
            r@ == single_token(b),
    {
        &self.entries[b as usize]
    }
}

/// The token of the last entry in the list whose key matches, if any:
/// a later insertion wins over an earlier one.
pub open spec fn lookup_entries(entries: Seq<((u8, u8), Seq<char>)>, key: (u8, u8)) -> Option<
    Seq<char>,
>
    decreases entries.len(),
{
    if entries.len() == 0 {
        None
    } else if entries.last().0 == key {
        Some(entries.last().1)
    } else {
        lookup_entries(entries.drop_last(), key)
    }
}

/// The function keys F1 through F19, under their terminal capability names.
pub open spec fn function_key_entries() -> Seq<((u8, u8), Seq<char>)> {
    seq![
        ((0x6b, 0x31), "<F1>"@),
        ((0x6b, 0x32), "<F2>"@),
        ((0x6b, 0x33), "<F3>"@),
        ((0x6b, 0x34), "<F4>"@),
        ((0x6b, 0x35), "<F5>"@),
        ((0x6b, 0x36), "<F6>"@),
        ((0x6b, 0x37), "<F7>"@),
        ((0x6b, 0x38), "<F8>"@),
        ((0x6b, 0x39), "<F9>"@),
        ((0x6b, 0x3b), "<F10>"@),
        ((0x46, 0x31), "<F11>"@),
        ((0x46, 0x32), "<F12>"@),
        ((0x46, 0x33), "<F13>"@),
        ((0x46, 0x34), "<F14>"@),
        ((0x46, 0x35), "<F15>"@),
        ((0x46, 0x36), "<F16>"@),
        ((0x46, 0x37), "<F17>"@),
        ((0x46, 0x38), "<F18>"@),
        ((0x46, 0x39), "<F19>"@),
    ]
}

/// Help, undo, shifted home and end, and the numeric keypad.
pub open spec fn keypad_entries() -> Seq<((u8, u8), Seq<char>)> {
    seq![
        ((0x25, 0x31), "<Help>"@),
        ((0x26, 0x38), "<Undo>"@),
        ((0x23, 0x32), "<S-Home>"@),
        ((0x2a, 0x37), "<S-End>"@),
        ((0x4b, 0x31), "<kHome>"@),
        ((0x4b, 0x34), "<kEnd>"@),
        ((0x4b, 0x33), "<kPageUp>"@),
        ((0x4b, 0x35), "<kPageDown>"@),
        ((0x4b, 0x36), "<kPlus>"@),
        ((0x4b, 0x37), "<kMinus>"@),
        ((0x4b, 0x38), "<kDivide>"@),
        ((0x4b, 0x39), "<kMultiply>"@),
        ((0x4b, 0x41), "<kEnter>"@),
        ((0x4b, 0x42), "<kPoint>"@),
        ((0x4b, 0x43), "<k0>"@),
        ((0x4b, 0x44), "<k1>"@),
        ((0x4b, 0x45), "<k2>"@),
        ((0x4b, 0x46), "<k3>"@),
        ((0x4b, 0x47), "<k4>"@),
        ((0x4b, 0x48), "<k5>"@),
        ((0x4b, 0x49), "<k6>"@),
        ((0x4b, 0x4a), "<k7>"@),
        ((0x4b, 0x4b), "<k8>"@),
        ((0x4b, 0x4c), "<k9>"@),
    ]
}

/// Navigation keys, arrows and their shifted variants, and backspace.
pub open spec fn navigation_entries() -> Seq<((u8, u8), Seq<char>)> {
    seq![
        ((0x6b, 0x50), "<PageUp>"@),
        ((0x6b, 0x4e), "<PageDown>"@),
        ((0x6b, 0x68), "<Home>"@),
        ((0x40, 0x37), "<End>"@),
        ((0x6b, 0x49), "<Insert>"@),
        ((0x6b, 0x44), "<Del>"@),
        ((0x6b, 0x62), "<BS>"@),
        ((0x6b, 0x75), "<Up>"@),
        ((0x6b, 0x64), "<Down>"@),
        ((0x6b, 0x6c), "<Left>"@),
        ((0x6b, 0x72), "<Right>"@),
        ((0x23, 0x34), "<S-Left>"@),
        ((0x25, 0x69), "<S-Right>"@),
        ((0x6b, 0x42), "<S-Tab>"@),
        ((0xff, 0x58), "<C-@>"@),
        ((0xfe, 0x58), "<0x80>"@),
    ]
}

/// The bare modifier prefixes. They are meant to combine with the next
/// keystroke, but the decoder emits them as tokens of their own.
pub open spec fn modifier_entries() -> Seq<((u8, u8), Seq<char>)> {
    seq![
        ((0xfc, 0x02), "<S->"@),
        ((0xfc, 0x04), "<C->"@),
        ((0xfc, 0x06), "<C-S->"@),
        ((0xfc, 0x08), "<A->"@),
        ((0xfc, 0x0a), "<A-S->"@),
        ((0xfc, 0x0c), "<C-A>"@),
        ((0xfc, 0x0e), "<C-A-S->"@),
        ((0xfc, 0x10), "<M->"@),
        ((0xfc, 0x12), "<M-S->"@),
        ((0xfc, 0x14), "<M-C->"@),
        ((0xfc, 0x16), "<M-C-S->"@),
        ((0xfc, 0x18), "<M-A->"@),
        ((0xfc, 0x1a), "<M-A-S->"@),
        ((0xfc, 0x1c), "<M-C-A>"@),
        ((0xfc, 0x1e), "<M-C-A-S->"@),
    ]
}

/// The first stretch of Vim's KS_EXTRA enumeration: shifted arrows,
/// shifted function keys and mouse events. The gap at `<S-F8>` and the
/// doubled `<S-F10>` reproduce the enumeration as Vim shipped it.
pub open spec fn extra_key_entries() -> Seq<((u8, u8), Seq<char>)> {
    seq![
        ((0xfd, 0x04), "<S-Up>"@),
        ((0xfd, 0x05), "<S-Down>"@),
        ((0xfd, 0x06), "<S-F1>"@),
        ((0xfd, 0x07), "<S-F2>"@),
        ((0xfd, 0x08), "<S-F3>"@),
        ((0xfd, 0x09), "<S-F4>"@),
        ((0xfd, 0x0a), "<S-F5>"@),
        ((0xfd, 0x0b), "<S-F6>"@),
        ((0xfd, 0x0c), "<S-F7>"@),
        ((0xfd, 0x0d), "<S-F9>"@),
        ((0xfd, 0x0e), "<S-F10>"@),
        ((0xfd, 0x0f), "<S-F10>"@),
        ((0xfd, 0x10), "<S-F11>"@),
        ((0xfd, 0x11), "<S-F12>"@),
        ((0xfd, 0x12), "<S-F13>"@),
        ((0xfd, 0x13), "<S-F14>"@),
        ((0xfd, 0x14), "<S-F15>"@),
        ((0xfd, 0x15), "<S-F16>"@),
        ((0xfd, 0x16), "<S-F17>"@),
        ((0xfd, 0x17), "<S-F18>"@),
        ((0xfd, 0x18), "<S-F19>"@),
        ((0xfd, 0x19), "<S-F20>"@),
        ((0xfd, 0x1a), "<S-F21>"@),
        ((0xfd, 0x1b), "<S-F22>"@),
        ((0xfd, 0x1c), "<S-F23>"@),
        ((0xfd, 0x1d), "<S-F24>"@),
        ((0xfd, 0x1e), "<S-F25>"@),
        ((0xfd, 0x1f), "<S-F26>"@),
        ((0xfd, 0x20), "<S-F27>"@),
        ((0xfd, 0x21), "<S-F28>"@),
        ((0xfd, 0x22), "<S-F29>"@),
        ((0xfd, 0x23), "<S-F30>"@),
        ((0xfd, 0x24), "<S-F31>"@),
        ((0xfd, 0x25), "<S-F32>"@),
        ((0xfd, 0x26), "<S-F33>"@),
        ((0xfd, 0x27), "<S-F34>"@),
        ((0xfd, 0x28), "<S-F35>"@),
        ((0xfd, 0x29), "<S-F36>"@),
        ((0xfd, 0x2a), "<S-F37>"@),
        ((0xfd, 0x2b), "<Mouse>"@),
        ((0xfd, 0x2c), "<LeftMouse>"@),
        ((0xfd, 0x2d), "<LeftDrag>"@),
        ((0xfd, 0x2e), "<LeftRelease>"@),
        ((0xfd, 0x2f), "<MiddleMouse>"@),
        ((0xfd, 0x30), "<MiddleDrag>"@),
        ((0xfd, 0x31), "<MiddleRelease>"@),
        ((0xfd, 0x32), "<RightMouse>"@),
        ((0xfd, 0x33), "<RightDrag>"@),
        ((0xfd, 0x34), "<RightRelease>"@),
        ((0xfd, 0x35), ""@),
    ]
}

/// The tail of the KS_EXTRA enumeration: scroll wheel events, keypad
/// insert and delete, keycodes reused for older Vims' Ctrl combinations,
/// and the window focus events, which decode to the empty token so that
/// they never show in a transcript.
pub open spec fn scroll_and_focus_entries() -> Seq<((u8, u8), Seq<char>)> {
    seq![
        ((0xfd, 0x4b), "<ScrollWheelUp>"@),
        ((0xfd, 0x4c), "<ScrollWheelDown>"@),
        ((0xfd, 0x4d), "<ScrollWheelRight>"@),
        ((0xfd, 0x4e), "<ScrollWheelLeft>"@),
        ((0xfd, 0x4f), "<kInsert>"@),
        ((0xfd, 0x50), "<kDel>"@),
        ((0xfd, 0x51), "<0x9b>"@),
        ((0xfd, 0x53), "<C-Left>"@),
        ((0xfd, 0x54), "<C-Right>"@),
        ((0xfd, 0x55), "<C-Left>"@),
        ((0xfd, 0x56), "<C-Right>"@),
        ((0xfd, 0x57), "<C-Home>"@),
        ((0xfd, 0x58), "<C-End>"@),
        ((0xfd, 0x5e), ""@),
        ((0xfd, 0x60), ""@),
        ((0xfd, 0x61), ""@),
        ((0xfd, 0x62), ""@),
        ((0xfd, 0x63), ""@),
    ]
}

/// The full insertion list of the extended-code table, in the order the
/// entries are written into it.
pub open spec fn ext_entries() -> Seq<((u8, u8), Seq<char>)> {
    function_key_entries() + keypad_entries() + navigation_entries() + modifier_entries()
        + extra_key_entries() + scroll_and_focus_entries()
}

/// The display token for a 2-byte extended code: the mapped token when the
/// table knows the code, and the empty (suppressed) token otherwise.
pub open spec fn ext_token(c1: u8, c2: u8) -> Seq<char> {
    match lookup_entries(ext_entries(), (c1, c2)) {
        Some(t) => t,
        None => Seq::empty(),
    }
}

/// The mapping from a 2-byte extended code to its display token, kept as
/// the ordered list of insertions that built it; immutable once
/// constructed.
pub struct ExtendedCodeTable {
    entries: Vec<(u8, u8, String)>,
}

impl ExtendedCodeTable {
    /// The insertion list the table holds, each entry as its key pair and
    /// the token's characters.
    pub closed spec fn view(&self) -> Seq<((u8, u8), Seq<char>)> {
        self.entries@.map_values(|e: (u8, u8, String)| ((e.0, e.1), e.2@))
    }

    /// The table holds exactly the insertions of `ext_entries`, in order.
    pub open spec fn wf(&self) -> bool {
        self.view() == ext_entries()
    }

    fn insert(&mut self, c1: u8, c2: u8, token: &str)
        ensures
            final(self)@ == old(self)@.push(((c1, c2), token@)),
    {
        self.entries.push((c1, c2, String::from_str(token)));
        proof {
            assert(self@ =~= old(self)@.push(((c1, c2), token@)));
        }
    }

    fn insert_function_keys(&mut self)
        ensures
            final(self)@ == old(self)@ + function_key_entries(),
    {
        self.insert(0x6b, 0x31, "<F1>");
        self.insert(0x6b, 0x32, "<F2>");
        self.insert(0x6b, 0x33, "<F3>");
        self.insert(0x6b, 0x34, "<F4>");
        self.insert(0x6b, 0x35, "<F5>");
        self.insert(0x6b, 0x36, "<F6>");
        self.insert(0x6b, 0x37, "<F7>");
        self.insert(0x6b, 0x38, "<F8>");
        self.insert(0x6b, 0x39, "<F9>");
        self.insert(0x6b, 0x3b, "<F10>");
        self.insert(0x46, 0x31, "<F11>");
        self.insert(0x46, 0x32, "<F12>");
        self.insert(0x46, 0x33, "<F13>");
        self.insert(0x46, 0x34, "<F14>");
        self.insert(0x46, 0x35, "<F15>");
        self.insert(0x46, 0x36, "<F16>");
        self.insert(0x46, 0x37, "<F17>");
        self.insert(0x46, 0x38, "<F18>");
        self.insert(0x46, 0x39, "<F19>");
        proof {
            assert(self@ =~= old(self)@ + function_key_entries());
        }
    }

    fn insert_keypad_keys(&mut self)
        ensures
            final(self)@ == old(self)@ + keypad_entries(),
    {
        self.insert(0x25, 0x31, "<Help>");
        self.insert(0x26, 0x38, "<Undo>");
        self.insert(0x23, 0x32, "<S-Home>");
        self.insert(0x2a, 0x37, "<S-End>");
        self.insert(0x4b, 0x31, "<kHome>");
        self.insert(0x4b, 0x34, "<kEnd>");
        self.insert(0x4b, 0x33, "<kPageUp>");
        self.insert(0x4b, 0x35, "<kPageDown>");
        self.insert(0x4b, 0x36, "<kPlus>");
        self.insert(0x4b, 0x37, "<kMinus>");
        self.insert(0x4b, 0x38, "<kDivide>");
        self.insert(0x4b, 0x39, "<kMultiply>");
        self.insert(0x4b, 0x41, "<kEnter>");
        self.insert(0x4b, 0x42, "<kPoint>");
        self.insert(0x4b, 0x43, "<k0>");
        self.insert(0x4b, 0x44, "<k1>");
        self.insert(0x4b, 0x45, "<k2>");
        self.insert(0x4b, 0x46, "<k3>");
        self.insert(0x4b, 0x47, "<k4>");
        self.insert(0x4b, 0x48, "<k5>");
        self.insert(0x4b, 0x49, "<k6>");
        self.insert(0x4b, 0x4a, "<k7>");
        self.insert(0x4b, 0x4b, "<k8>");
        self.insert(0x4b, 0x4c, "<k9>");
        proof {
            assert(self@ =~= old(self)@ + keypad_entries());
        }
    }

    fn insert_navigation_keys(&mut self)
        ensures
            final(self)@ == old(self)@ + navigation_entries(),
    {
        self.insert(0x6b, 0x50, "<PageUp>");
        self.insert(0x6b, 0x4e, "<PageDown>");
        self.insert(0x6b, 0x68, "<Home>");
        self.insert(0x40, 0x37, "<End>");
        self.insert(0x6b, 0x49, "<Insert>");
        self.insert(0x6b, 0x44, "<Del>");
        self.insert(0x6b, 0x62, "<BS>");
        self.insert(0x6b, 0x75, "<Up>");
        self.insert(0x6b, 0x64, "<Down>");
        self.insert(0x6b, 0x6c, "<Left>");
        self.insert(0x6b, 0x72, "<Right>");
        self.insert(0x23, 0x34, "<S-Left>");
        self.insert(0x25, 0x69, "<S-Right>");
        self.insert(0x6b, 0x42, "<S-Tab>");
        self.insert(0xff, 0x58, "<C-@>");
        self.insert(0xfe, 0x58, "<0x80>");
        proof {
            assert(self@ =~= old(self)@ + navigation_entries());
        }
    }

    fn insert_modifier_prefixes(&mut self)
        ensures
            final(self)@ == old(self)@ + modifier_entries(),
    {
        self.insert(0xfc, 0x02, "<S->");
        self.insert(0xfc, 0x04, "<C->");
        self.insert(0xfc, 0x06, "<C-S->");
        self.insert(0xfc, 0x08, "<A->");
        self.insert(0xfc, 0x0a, "<A-S->");
        self.insert(0xfc, 0x0c, "<C-A>");
        self.insert(0xfc, 0x0e, "<C-A-S->");
        self.insert(0xfc, 0x10, "<M->");
        self.insert(0xfc, 0x12, "<M-S->");
        self.insert(0xfc, 0x14, "<M-C->");
        self.insert(0xfc, 0x16, "<M-C-S->");
        self.insert(0xfc, 0x18, "<M-A->");
        self.insert(0xfc, 0x1a, "<M-A-S->");
        self.insert(0xfc, 0x1c, "<M-C-A>");
        self.insert(0xfc, 0x1e, "<M-C-A-S->");
        proof {
            assert(self@ =~= old(self)@ + modifier_entries());
        }
    }

    fn insert_extra_keys(&mut self)
        ensures
            final(self)@ == old(self)@ + extra_key_entries(),
    {
        self.insert(0xfd, 0x04, "<S-Up>");
        self.insert(0xfd, 0x05, "<S-Down>");
        self.insert(0xfd, 0x06, "<S-F1>");
        self.insert(0xfd, 0x07, "<S-F2>");
        self.insert(0xfd, 0x08, "<S-F3>");
        self.insert(0xfd, 0x09, "<S-F4>");
        self.insert(0xfd, 0x0a, "<S-F5>");
        self.insert(0xfd, 0x0b, "<S-F6>");
        self.insert(0xfd, 0x0c, "<S-F7>");
        self.insert(0xfd, 0x0d, "<S-F9>");
        self.insert(0xfd, 0x0e, "<S-F10>");
        self.insert(0xfd, 0x0f, "<S-F10>");
        self.insert(0xfd, 0x10, "<S-F11>");
        self.insert(0xfd, 0x11, "<S-F12>");
        self.insert(0xfd, 0x12, "<S-F13>");
        self.insert(0xfd, 0x13, "<S-F14>");
        self.insert(0xfd, 0x14, "<S-F15>");
        self.insert(0xfd, 0x15, "<S-F16>");
        self.insert(0xfd, 0x16, "<S-F17>");
        self.insert(0xfd, 0x17, "<S-F18>");
        self.insert(0xfd, 0x18, "<S-F19>");
        self.insert(0xfd, 0x19, "<S-F20>");
        self.insert(0xfd, 0x1a, "<S-F21>");
        self.insert(0xfd, 0x1b, "<S-F22>");
        self.insert(0xfd, 0x1c, "<S-F23>");
        self.insert(0xfd, 0x1d, "<S-F24>");
        self.insert(0xfd, 0x1e, "<S-F25>");
        self.insert(0xfd, 0x1f, "<S-F26>");
        self.insert(0xfd, 0x20, "<S-F27>");
        self.insert(0xfd, 0x21, "<S-F28>");
        self.insert(0xfd, 0x22, "<S-F29>");
        self.insert(0xfd, 0x23, "<S-F30>");
        self.insert(0xfd, 0x24, "<S-F31>");
        self.insert(0xfd, 0x25, "<S-F32>");
        self.insert(0xfd, 0x26, "<S-F33>");
        self.insert(0xfd, 0x27, "<S-F34>");
        self.insert(0xfd, 0x28, "<S-F35>");
        self.insert(0xfd, 0x29, "<S-F36>");
        self.insert(0xfd, 0x2a, "<S-F37>");
        self.insert(0xfd, 0x2b, "<Mouse>");
        self.insert(0xfd, 0x2c, "<LeftMouse>");
        self.insert(0xfd, 0x2d, "<LeftDrag>");
        self.insert(0xfd, 0x2e, "<LeftRelease>");
        self.insert(0xfd, 0x2f, "<MiddleMouse>");
        self.insert(0xfd, 0x30, "<MiddleDrag>");
        self.insert(0xfd, 0x31, "<MiddleRelease>");
        self.insert(0xfd, 0x32, "<RightMouse>");
        self.insert(0xfd, 0x33, "<RightDrag>");
        self.insert(0xfd, 0x34, "<RightRelease>");
        self.insert(0xfd, 0x35, "");
        proof {
            assert(self@ =~= old(self)@ + extra_key_entries());
        }
    }

    fn insert_scroll_and_focus_keys(&mut self)
        ensures
            final(self)@ == old(self)@ + scroll_and_focus_entries(),
    {
        self.insert(0xfd, 0x4b, "<ScrollWheelUp>");
        self.insert(0xfd, 0x4c, "<ScrollWheelDown>");
        self.insert(0xfd, 0x4d, "<ScrollWheelRight>");
        self.insert(0xfd, 0x4e, "<ScrollWheelLeft>");
        self.insert(0xfd, 0x4f, "<kInsert>");
        self.insert(0xfd, 0x50, "<kDel>");
        self.insert(0xfd, 0x51, "<0x9b>");
        self.insert(0xfd, 0x53, "<C-Left>");
        self.insert(0xfd, 0x54, "<C-Right>");
        self.insert(0xfd, 0x55, "<C-Left>");
        self.insert(0xfd, 0x56, "<C-Right>");
        self.insert(0xfd, 0x57, "<C-Home>");
        self.insert(0xfd, 0x58, "<C-End>");
        self.insert(0xfd, 0x5e, "");
        self.insert(0xfd, 0x60, "");
        self.insert(0xfd, 0x61, "");
        self.insert(0xfd, 0x62, "");
        self.insert(0xfd, 0x63, "");
        proof {
            assert(self@ =~= old(self)@ + scroll_and_focus_entries());
        }
    }

    /// Builds the table by the fixed sequence of insertions that
    /// `ext_entries` records.
    pub fn new() -> (r: Self)
        ensures
            r.wf(),
    {
        let mut table = Self { entries: Vec::new() };
        proof {
            assert(table@ =~= Seq::<((u8, u8), Seq<char>)>::empty());
        }
        table.insert_function_keys();
        table.insert_keypad_keys();
        table.insert_navigation_keys();
        table.insert_modifier_prefixes();
        table.insert_extra_keys();
        table.insert_scroll_and_focus_keys();
        proof {
            assert(table@ =~= ext_entries());
        }
        table
    }

    /// The token for a 2-byte code: the last insertion for that key wins.
    pub fn lookup(&self, c1: u8, c2: u8) -> (r: Option<&String>)
        requires
            self.wf(),
        ensures
            match r {
                Some(t) => lookup_entries(ext_entries(), (c1, c2)) == Some(t@),
                None => lookup_entries(ext_entries(), (c1, c2)) is None,
            },
    {
        let mut i: usize = self.entries.len();
        proof {
            assert(self@.take(i as int) =~= self@);
        }
        while i > 0
            invariant
                i <= self.entries.len(),
                self.wf(),
                lookup_entries(ext_entries(), (c1, c2)) == lookup_entries(
                    self@.take(i as int),
                    (c1, c2),
                ),
            decreases i,
        {
            i -= 1;
            let entry = &self.entries[i];
            proof {
                assert(self@.take(i + 1).drop_last() =~= self@.take(i as int));
                assert(self@.take(i + 1).last() == ((entry.0, entry.1), entry.2@));
            }
            if entry.0 == c1 && entry.1 == c2 {
                return Some(&entry.2);
            }
        }
        proof {
            assert(self@.take(0) =~= Seq::<((u8, u8), Seq<char>)>::empty());
        }
        None
    }
}

} // verus!
