//! Key presses to actions: a reserved close key, then the first action whose
//! keybind matches without regard to case.
use vstd::prelude::*;
use crate::config::ActionConfig;
use crate::text::{lowercased, same_text, to_lower};

verus! {

/// The key name (lower case) that always closes the menu.
pub const CLOSE_KEY: &'static str = "escape";

/// What a key press asks for.
#[derive(Debug, Clone, Copy, PartialEq, Eq, Structural)]
pub enum DispatchOutcome {
    /// Close the menu.
    Terminate,
    /// Run the action at this index.
    Execute(usize),
    /// Ask before running the action at this index.
    RequestConfirmation(usize),
    /// Nothing is bound to the key.
    Ignored,
}

/// Whether `a` is bound to the lower-cased key `key`.
pub open spec fn key_matches(a: ActionConfig, key: Seq<char>) -> bool {
    a.keybind matches Some(k) && lowercased(k@) == key
}

/// Action `i` is the first one bound to `key`.
pub open spec fn first_bound(actions: Seq<ActionConfig>, key: Seq<char>, i: int) -> bool {
    &&& 0 <= i < actions.len()
    &&& key_matches(actions[i], key)
    &&& forall|j: int| 0 <= j < i ==> !key_matches(#[trigger] actions[j], key)
}

/// What pressing `key` asks for, given `actions`.
pub open spec fn dispatch_result(actions: Seq<ActionConfig>, key: Seq<char>, r: DispatchOutcome) -> bool {
    let k = lowercased(key);
    if k == CLOSE_KEY@ {
        r == DispatchOutcome::Terminate
    } else {
        match r {
            DispatchOutcome::Execute(i) => first_bound(actions, k, i as int) && !actions[i as int].confirm,
            DispatchOutcome::RequestConfirmation(i) => first_bound(actions, k, i as int)
                && actions[i as int].confirm,
            DispatchOutcome::Ignored => forall|j: int|
                0 <= j < actions.len() ==> !key_matches(#[trigger] actions[j], k),
            DispatchOutcome::Terminate => false,
        }
    }
}

/// What pressing the key named `key` asks for.
pub fn dispatch_key(actions: &Vec<ActionConfig>, key: &str) -> (r: DispatchOutcome)
    ensures
        dispatch_result(actions@, key@, r),
{
    let k = to_lower(key);
    if same_text(k.as_str(), CLOSE_KEY) {
        return DispatchOutcome::Terminate;
    }
    let mut i: usize = 0;
    while i < actions.len()
        invariant
            0 <= i <= actions@.len(),
            k@ == lowercased(key@),
            k@ != CLOSE_KEY@,
            forall|j: int| 0 <= j < i ==> !key_matches(#[trigger] actions@[j], k@),
        decreases actions@.len() - i,
    {
        let action = &actions[i];
        if let Some(bind) = &action.keybind {
            let b = to_lower(bind.as_str());
            if same_text(b.as_str(), k.as_str()) {
                if action.confirm {
                    return DispatchOutcome::RequestConfirmation(i);
                } else {
                    return DispatchOutcome::Execute(i);
                }
            }
        }
        i = i + 1;
    }
    DispatchOutcome::Ignored
}

/// The close key wins over any keybind: a key that lower-cases to the close
/// key asks to terminate even where an action is bound to the same key.
pub proof fn lemma_close_key_not_shadowed(actions: Seq<ActionConfig>, key: Seq<char>, r: DispatchOutcome)
    requires
        lowercased(key) == CLOSE_KEY@,
        dispatch_result(actions, key, r),
    ensures
        r == DispatchOutcome::Terminate,
{
}

/// Keys match without regard to case: two keys with the same lower-case form
/// ask for the same thing.
pub proof fn lemma_dispatch_ignores_case(
    actions: Seq<ActionConfig>,
    key1: Seq<char>,
    key2: Seq<char>,
    r1: DispatchOutcome,
    r2: DispatchOutcome,
)
    requires
        lowercased(key1) == lowercased(key2),
        dispatch_result(actions, key1, r1),
        dispatch_result(actions, key2, r2),
    ensures
        r1 == r2,
{
    let k = lowercased(key1);
    if k != CLOSE_KEY@ {
        match r1 {
            DispatchOutcome::Execute(i) | DispatchOutcome::RequestConfirmation(i) => {
                match r2 {
                    DispatchOutcome::Execute(i2) | DispatchOutcome::RequestConfirmation(i2) => {
                        if i < i2 {
                            assert(!key_matches(actions[i as int], k));
                        } else if i2 < i {
                            assert(!key_matches(actions[i2 as int], k));
                        }
                    },
                    DispatchOutcome::Ignored => {
                        assert(!key_matches(actions[i as int], k));
                    },
                    _ => {},
                }
            },
            DispatchOutcome::Ignored => {
                match r2 {
                    DispatchOutcome::Execute(i2) | DispatchOutcome::RequestConfirmation(i2) => {
                        assert(!key_matches(actions[i2 as int], k));
                    },
                    _ => {},
                }
            },
            _ => {},
        }
    }
}

} // verus!
