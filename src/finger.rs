use vstd::prelude::*;
use crate::error::text_eq;

verus! {

/// A finger slot that a template can be enrolled against, plus the page that
/// clears every user's prints.
#[derive(Clone, Copy, Debug, PartialEq, Eq, Structural)]
pub enum Finger {
    RightThumb,
    RightIndex,
    RightMiddle,
    RightRing,
    RightPinky,
    LeftThumb,
    LeftIndex,
    LeftMiddle,
    LeftRing,
    LeftPinky,
    DeleteAllUsersPrints,
}

/// Every page, in the order in which they are offered.
pub open spec fn all_fingers() -> Seq<Finger> {
    seq![
        Finger::RightThumb,
        Finger::RightIndex,
        Finger::RightMiddle,
        Finger::RightRing,
        Finger::RightPinky,
        Finger::LeftThumb,
        Finger::LeftIndex,
        Finger::LeftMiddle,
        Finger::LeftRing,
        Finger::LeftPinky,
        Finger::DeleteAllUsersPrints,
    ]
}

/// The identifier that the fingerprint service uses for a finger slot.
pub open spec fn finger_id(f: Finger) -> Option<Seq<char>> {
    match f {
        Finger::RightThumb => Some("right-thumb"@),
        Finger::RightIndex => Some("right-index-finger"@),
        Finger::RightMiddle => Some("right-middle-finger"@),
        Finger::RightRing => Some("right-ring-finger"@),
        Finger::RightPinky => Some("right-little-finger"@),
        Finger::LeftThumb => Some("left-thumb"@),
        Finger::LeftIndex => Some("left-index-finger"@),
        Finger::LeftMiddle => Some("left-middle-finger"@),
        Finger::LeftRing => Some("left-ring-finger"@),
        Finger::LeftPinky => Some("left-little-finger"@),
        Finger::DeleteAllUsersPrints => None,
    }
}

/// The English label shown for a page.
pub open spec fn finger_label(f: Finger) -> Seq<char> {
    match f {
        Finger::RightThumb => "Right Thumb"@,
        Finger::RightIndex => "Right Index Finger"@,
        Finger::RightMiddle => "Right Middle Finger"@,
        Finger::RightRing => "Right Ring Finger"@,
        Finger::RightPinky => "Right Little Finger"@,
        Finger::LeftThumb => "Left Thumb"@,
        Finger::LeftIndex => "Left Index Finger"@,
        Finger::LeftMiddle => "Left Middle Finger"@,
        Finger::LeftRing => "Left Ring Finger"@,
        Finger::LeftPinky => "Left Little Finger"@,
        Finger::DeleteAllUsersPrints => "Delete All Users' Prints"@,
    }
}

impl Finger {
    /// Every page, in display order.
    pub fn all() -> (r: Vec<Finger>)
        ensures
            r@ == all_fingers(),
    {
        let r = vec![
            Finger::RightThumb,
            Finger::RightIndex,
            Finger::RightMiddle,
            Finger::RightRing,
            Finger::RightPinky,
            Finger::LeftThumb,
            Finger::LeftIndex,
            Finger::LeftMiddle,
            Finger::LeftRing,
            Finger::LeftPinky,
            Finger::DeleteAllUsersPrints,
        ];
        assert(r@ =~= all_fingers());
        r
    }

    /// The page's label.
    pub fn localized_name(&self) -> (r: String)
        ensures
            r@ == finger_label(*self),
            r@.len() > 0,
    {
        let s = match self {
            Finger::RightThumb => "Right Thumb",
            Finger::RightIndex => "Right Index Finger",
            Finger::RightMiddle => "Right Middle Finger",
            Finger::RightRing => "Right Ring Finger",
            Finger::RightPinky => "Right Little Finger",
            Finger::LeftThumb => "Left Thumb",
            Finger::LeftIndex => "Left Index Finger",
            Finger::LeftMiddle => "Left Middle Finger",
            Finger::LeftRing => "Left Ring Finger",
            Finger::LeftPinky => "Left Little Finger",
            Finger::DeleteAllUsersPrints => "Delete All Users' Prints",
        };
        proof {
            reveal_strlit("Right Thumb");
            reveal_strlit("Right Index Finger");
            reveal_strlit("Right Middle Finger");
            reveal_strlit("Right Ring Finger");
            reveal_strlit("Right Little Finger");
            reveal_strlit("Left Thumb");
            reveal_strlit("Left Index Finger");
            reveal_strlit("Left Middle Finger");
            reveal_strlit("Left Ring Finger");
            reveal_strlit("Left Little Finger");
            reveal_strlit("Delete All Users' Prints");
        }
        String::from_str(s)
    }

    /// The page whose label is `name`, if any.
    pub fn from_localized_name(name: &str) -> (r: Option<Finger>)
        ensures
            r matches Some(f) ==> finger_label(f) == name@,
            r is None ==> forall|f: Finger| finger_label(f) != name@,
    {
        let pages = Finger::all();
        let mut i: usize = 0;
        while i < pages.len()
            invariant
                pages@ == all_fingers(),
                i <= pages@.len(),
                forall|j: int| 0 <= j < i ==> finger_label(#[trigger] all_fingers()[j]) != name@,
            decreases pages@.len() - i,
        {
            let label = pages[i].localized_name();
            if text_eq(label.as_str(), name) {
                return Some(pages[i]);
            }
            i += 1;
        }
        assert forall|f: Finger| finger_label(f) != name@ by {
            assert(all_fingers().contains(f)) by {
                match f {
                    Finger::RightThumb => assert(all_fingers()[0] == f),
                    Finger::RightIndex => assert(all_fingers()[1] == f),
                    Finger::RightMiddle => assert(all_fingers()[2] == f),
                    Finger::RightRing => assert(all_fingers()[3] == f),
                    Finger::RightPinky => assert(all_fingers()[4] == f),
                    Finger::LeftThumb => assert(all_fingers()[5] == f),
                    Finger::LeftIndex => assert(all_fingers()[6] == f),
                    Finger::LeftMiddle => assert(all_fingers()[7] == f),
                    Finger::LeftRing => assert(all_fingers()[8] == f),
                    Finger::LeftPinky => assert(all_fingers()[9] == f),
                    Finger::DeleteAllUsersPrints => assert(all_fingers()[10] == f),
                }
            }
        }
        None
    }

    /// The finger slot that the service's identifier `id` names, if any.
    pub fn from_finger_id(id: &str) -> (r: Option<Finger>)
        ensures
            r matches Some(f) ==> finger_id(f) == Some(id@),
            r is None ==> forall|f: Finger| finger_id(f) != Some(id@),
    {
        let pages = Finger::all();
        let mut i: usize = 0;
        while i < pages.len()
            invariant
                pages@ == all_fingers(),
                i <= pages@.len(),
                forall|j: int| 0 <= j < i ==> finger_id(#[trigger] all_fingers()[j]) != Some(id@),
            decreases pages@.len() - i,
        {
            match pages[i].as_finger_id() {
                Some(s) => {
                    if text_eq(s, id) {
                        return Some(pages[i]);
                    }
                },
                None => {},
            }
            i += 1;
        }
        assert forall|f: Finger| finger_id(f) != Some(id@) by {
            match f {
                Finger::RightThumb => assert(all_fingers()[0] == f),
                Finger::RightIndex => assert(all_fingers()[1] == f),
                Finger::RightMiddle => assert(all_fingers()[2] == f),
                Finger::RightRing => assert(all_fingers()[3] == f),
                Finger::RightPinky => assert(all_fingers()[4] == f),
                Finger::LeftThumb => assert(all_fingers()[5] == f),
                Finger::LeftIndex => assert(all_fingers()[6] == f),
                Finger::LeftMiddle => assert(all_fingers()[7] == f),
                Finger::LeftRing => assert(all_fingers()[8] == f),
                Finger::LeftPinky => assert(all_fingers()[9] == f),
                Finger::DeleteAllUsersPrints => assert(all_fingers()[10] == f),
            }
        }
        None
    }

    /// The service's identifier for this finger slot; `None` for the page
    /// that clears every user's prints.
    pub fn as_finger_id(&self) -> (r: Option<&'static str>)
        ensures
            r is Some <==> finger_id(*self) is Some,
            r is Some ==> finger_id(*self) == Some(r->Some_0@),
    {
        match self {
            Finger::RightThumb => Some("right-thumb"),
            Finger::RightIndex => Some("right-index-finger"),
            Finger::RightMiddle => Some("right-middle-finger"),
            Finger::RightRing => Some("right-ring-finger"),
            Finger::RightPinky => Some("right-little-finger"),
            Finger::LeftThumb => Some("left-thumb"),
            Finger::LeftIndex => Some("left-index-finger"),
            Finger::LeftMiddle => Some("left-middle-finger"),
            Finger::LeftRing => Some("left-ring-finger"),
            Finger::LeftPinky => Some("left-little-finger"),
            Finger::DeleteAllUsersPrints => None,
        }
    }
}

/// The page shown in the context drawer.
#[derive(Clone, Copy, Debug, PartialEq, Eq, Structural)]
pub enum ContextPage {
    About,
}

impl Default for ContextPage {
    fn default() -> (r: ContextPage)
        ensures
            r == ContextPage::About,
    {
        ContextPage::About
    }
}

impl Default for Finger {
    fn default() -> (r: Finger)
        ensures
            r == Finger::RightIndex,
    {
        Finger::RightIndex
    }
}

} // verus!
