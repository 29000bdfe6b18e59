use vstd::prelude::*;
use crate::error::AppError;
use crate::finger::ContextPage;

verus! {

/// A user account that prints can be enrolled for.
#[derive(Clone, Debug, PartialEq, Eq)]
pub struct UserOption {
    pub username: String,
    pub realname: String,
    pub icon: String,
}

impl UserOption {
    /// An equal copy of the account.
    pub fn duplicate(&self) -> (r: UserOption)
        ensures
            r == *self,
    {
        UserOption {
            username: self.username.clone(),
            realname: self.realname.clone(),
            icon: self.icon.clone(),
        }
    }
}

/// The accounts whose lookup succeeded, in the order in which they arrived.
pub open spec fn found_users(s: Seq<Option<UserOption>>) -> Seq<UserOption>
    decreases s.len(),
{
    if s.len() == 0 {
        Seq::empty()
    } else {
        let rest = found_users(s.drop_last());
        match s.last() {
            Some(u) => rest.push(u),
            None => rest,
        }
    }
}

/// The accounts to offer: those whose lookup succeeded, failed lookups
/// dropped; the current user alone where none succeeded.
pub fn collect_users(results: &Vec<Option<UserOption>>, current: Option<UserOption>) -> (r: Vec<
    UserOption,
>)
    ensures
        found_users(results@).len() > 0 ==> r@ == found_users(results@),
        found_users(results@).len() == 0 ==> r@ == match current {
            Some(u) => seq![u],
            None => Seq::<UserOption>::empty(),
        },
{
    let mut r: Vec<UserOption> = Vec::new();
    let mut i: usize = 0;
    while i < results.len()
        invariant
            i <= results@.len(),
            r@ == found_users(results@.subrange(0, i as int)),
        decreases results@.len() - i,
    {
        proof {
            assert(results@.subrange(0, i as int + 1).drop_last() =~= results@.subrange(0, i as int));
        }
        match &results[i] {
            Some(u) => r.push(u.duplicate()),
            None => {},
        }
        i += 1;
    }
    assert(results@.subrange(0, results@.len() as int) =~= results@);
    if r.len() == 0 {
        match current {
            Some(u) => {
                r.push(u);
            },
            None => {},
        }
        assert(r@ =~= match current {
            Some(u) => seq![u],
            None => Seq::<UserOption>::empty(),
        });
    }
    r
}

/// What the presentation layer is told, and what it asks for.
#[derive(Debug, PartialEq, Eq)]
pub enum Message {
    DeviceFound(Option<String>),
    UsersFound(Vec<UserOption>),
    FingerSelected(String),
    EnrolledFingers(Vec<String>),
    EnrollStart(Option<u32>),
    EnrollStatus(String, bool),
    EnrollStop,
    Delete,
    DeleteComplete,
    ClearDevice,
    CancelClear,
    ClearComplete(Result<(), AppError>),
    OperationError(AppError),
    Register,
    OpenRepositoryUrl,
    ToggleContextPage(ContextPage),
    LaunchUrl(String),
}

/// An entry of the application menu.
#[derive(Clone, Copy, Debug, PartialEq, Eq, Structural)]
pub enum MenuAction {
    About,
}

impl MenuAction {
    /// The message that the menu entry sends.
    pub fn message(&self) -> (r: Message)
        ensures
            r == Message::ToggleContextPage(ContextPage::About),
    {
        match self {
            MenuAction::About => Message::ToggleContextPage(ContextPage::About),
        }
    }
}

} // verus!
