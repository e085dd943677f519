//! Key codes of the Linux input subsystem and the button-to-key mapping.
use vstd::prelude::*;

verus! {

/// A key or button code of the Linux input subsystem.
pub type KeyCode = u16;

pub const KEY_ENTER: KeyCode = 28;
pub const KEY_LEFTCTRL: KeyCode = 29;
pub const KEY_LEFTSHIFT: KeyCode = 42;
pub const KEY_UP: KeyCode = 103;
pub const KEY_LEFT: KeyCode = 105;
pub const KEY_RIGHT: KeyCode = 106;
pub const KEY_DOWN: KeyCode = 108;
pub const KEY_DELETE: KeyCode = 111;
pub const KEY_LEFTMETA: KeyCode = 125;

pub const BTN_SOUTH: KeyCode = 304;
pub const BTN_EAST: KeyCode = 305;
pub const BTN_SELECT: KeyCode = 314;
pub const BTN_START: KeyCode = 315;
pub const BTN_MODE: KeyCode = 316;

/// The keys that the virtual keyboard advertises, in registration order.
pub open spec fn supported_key_seq() -> Seq<KeyCode> {
    seq![
        KEY_ENTER,
        KEY_LEFTMETA,
        KEY_LEFTSHIFT,
        KEY_LEFTCTRL,
        KEY_DELETE,
        KEY_UP,
        KEY_LEFT,
        KEY_RIGHT,
        KEY_DOWN,
    ]
}

/// The keys that the virtual keyboard advertises when it is created.
pub fn supported_keys() -> (r: Vec<KeyCode>)
    ensures
        r@ == supported_key_seq(),
{
    let r = vec![
        KEY_ENTER,
        KEY_LEFTMETA,
        KEY_LEFTSHIFT,
        KEY_LEFTCTRL,
        KEY_DELETE,
        KEY_UP,
        KEY_LEFT,
        KEY_RIGHT,
        KEY_DOWN,
    ];
    assert(r@ =~= supported_key_seq());
    r
}

/// The key that `code` maps to in `pairs`: the target of the first pair whose
/// source is `code`, or `None` when no pair has that source.
pub open spec fn lookup(pairs: Seq<(KeyCode, KeyCode)>, code: KeyCode) -> Option<KeyCode>
    decreases pairs.len(),
{
    if pairs.len() == 0 {
        None
    } else if pairs[0].0 == code {
        Some(pairs[0].1)
    } else {
        lookup(pairs.subrange(1, pairs.len() as int), code)
    }
}

/// `lookup` finds a target exactly when some pair has `code` as its source,
/// and the target it finds belongs to such a pair.
pub proof fn lemma_lookup_finds_pair(pairs: Seq<(KeyCode, KeyCode)>, code: KeyCode)
    ensures
        lookup(pairs, code).is_some() <==> exists|i: int| 0 <= i < pairs.len() && pairs[i].0 == code,
        lookup(pairs, code).is_some() ==> exists|i: int|
            0 <= i < pairs.len() && pairs[i] == (code, lookup(pairs, code).unwrap()),
    decreases pairs.len(),
{
    if pairs.len() > 0 && pairs[0].0 != code {
        let rest = pairs.subrange(1, pairs.len() as int);
        lemma_lookup_finds_pair(rest, code);
        if lookup(rest, code).is_some() {
            let i = choose|i: int| 0 <= i < rest.len() && rest[i] == (code, lookup(rest, code).unwrap());
            assert(pairs[i + 1] == rest[i]);
        }
        if exists|i: int| 0 <= i < pairs.len() && pairs[i].0 == code {
            let i = choose|i: int| 0 <= i < pairs.len() && pairs[i].0 == code;
            assert(rest[i - 1] == pairs[i]);
        }
    } else if pairs.len() > 0 {
        assert(pairs[0] == (code, lookup(pairs, code).unwrap()));
    }
}

/// An ordered list of (controller button, keyboard key) pairs.
pub struct KeyMapping {
    pub pairs: Vec<(KeyCode, KeyCode)>,
}

impl KeyMapping {
    /// The pairs of the mapping, in order.
    pub open spec fn view(&self) -> Seq<(KeyCode, KeyCode)> {
        self.pairs@
    }

    pub fn new(pairs: Vec<(KeyCode, KeyCode)>) -> (r: KeyMapping)
        ensures
            r@ == pairs@,
    {
        KeyMapping { pairs }
    }

    /// The fixed mapping of the controller's face and menu buttons.
    pub fn controller_default() -> (r: KeyMapping)
        ensures
            r@ == seq![
                (BTN_SOUTH, KEY_ENTER),
                (BTN_EAST, KEY_DELETE),
                (BTN_SELECT, KEY_LEFTSHIFT),
                (BTN_START, KEY_LEFTCTRL),
                (BTN_MODE, KEY_LEFTMETA),
            ],
    {
        let pairs = vec![
            (BTN_SOUTH, KEY_ENTER),
            (BTN_EAST, KEY_DELETE),
            (BTN_SELECT, KEY_LEFTSHIFT),
            (BTN_START, KEY_LEFTCTRL),
            (BTN_MODE, KEY_LEFTMETA),
        ];
        let r = KeyMapping { pairs };
        assert(r@ =~= seq![
            (BTN_SOUTH, KEY_ENTER),
            (BTN_EAST, KEY_DELETE),
            (BTN_SELECT, KEY_LEFTSHIFT),
            (BTN_START, KEY_LEFTCTRL),
            (BTN_MODE, KEY_LEFTMETA),
        ]);
        r
    }

    /// The key that `code` maps to: the target of its first pair, if any.
    pub fn lookup(&self, code: KeyCode) -> (r: Option<KeyCode>)
        ensures
            r == lookup(self@, code),
    {
        let n = self.pairs.len();
        let mut i: usize = 0;
        assert(self@.subrange(0, n as int) =~= self@);
        while i < n
            invariant
                n == self@.len(),
                0 <= i <= n,
                lookup(self@, code) == lookup(self@.subrange(i as int, n as int), code),
            decreases n - i,
        {
            let pair = self.pairs[i];
            if pair.0 == code {
                return Some(pair.1);
            }
            proof {
                let rest = self@.subrange(i as int, n as int);
                assert(rest.subrange(1, rest.len() as int) =~= self@.subrange(i + 1, n as int));
            }
            i = i + 1;
        }
        None
    }
}

} // verus!
