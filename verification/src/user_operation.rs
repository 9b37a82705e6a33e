//! The gestures a user can make in a screen zone.

use vstd::prelude::*;

verus! {

/// A kind of interaction with a screen zone.
#[derive(Debug, Clone, Copy, PartialEq, Eq, Hash, Structural)]
pub enum UserOperation {
    ScrollUp,
    ScrollDown,
    MiddlePress,
    MiddleRelease,
    /// The pointer entered the zone.
    Touch,
}

/// The gestures, in declaration order.
pub open spec fn all_gestures() -> Seq<UserOperation> {
    seq![
        UserOperation::ScrollUp,
        UserOperation::ScrollDown,
        UserOperation::MiddlePress,
        UserOperation::MiddleRelease,
        UserOperation::Touch,
    ]
}

impl UserOperation {
    /// The five gestures, in declaration order.
    pub fn all() -> (gestures: Vec<UserOperation>)
        ensures
            gestures@ == all_gestures(),
    {
        let gestures: Vec<UserOperation> = vec![
            UserOperation::ScrollUp,
            UserOperation::ScrollDown,
            UserOperation::MiddlePress,
            UserOperation::MiddleRelease,
            UserOperation::Touch,
        ];
        assert(gestures@ =~= all_gestures());
        gestures
    }
}

} // verus!
