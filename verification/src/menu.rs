//! The decisions of the console menus: which screen a choice leads to, and
//! which choices are open to administrators only. The console reads the
//! choice and shows the screen; what the choice means is decided here.

use crate::model::Role;
use vstd::prelude::*;
use vstd::string::StrSliceExecFns;

verus! {

/// Where a choice in the main menu leads.
#[derive(Clone, Copy, Debug, PartialEq, Eq, Structural)]
pub enum MainMenuAction {
    ProductManagement,
    Sales,
    Purchases,
    Reports,
    UserManagement,
    Exit,
    /// The choice is open to administrators only.
    Denied,
    /// The number stands for nothing.
    Invalid,
}

/// Where a choice in the product menu leads.
#[derive(Clone, Copy, Debug, PartialEq, Eq, Structural)]
pub enum ProductMenuAction {
    Add,
    Edit,
    Delete,
    List,
    Back,
    /// The choice is open to administrators only.
    Denied,
    /// The number stands for nothing.
    Invalid,
}

/// Where a choice in the report menu leads.
#[derive(Clone, Copy, Debug, PartialEq, Eq, Structural)]
pub enum ReportMenuAction {
    Inventory,
    Sales,
    Purchases,
    Back,
    /// The choice is open to administrators only.
    Denied,
    /// The number stands for nothing.
    Invalid,
}

/// Where a choice in the user menu leads.
#[derive(Clone, Copy, Debug, PartialEq, Eq, Structural)]
pub enum UserMenuAction {
    Add,
    List,
    Back,
    /// The number stands for nothing.
    Invalid,
}

/// The entry of the main menu that a number stands for.
pub open spec fn main_menu_entry(choice: u32) -> MainMenuAction {
    if choice == 1 {
        MainMenuAction::ProductManagement
    } else if choice == 2 {
        MainMenuAction::Sales
    } else if choice == 3 {
        MainMenuAction::Purchases
    } else if choice == 4 {
        MainMenuAction::Reports
    } else if choice == 5 {
        MainMenuAction::UserManagement
    } else if choice == 0 {
        MainMenuAction::Exit
    } else {
        MainMenuAction::Invalid
    }
}

/// The entry of the product menu that a number stands for.
pub open spec fn product_menu_entry(choice: u32) -> ProductMenuAction {
    if choice == 1 {
        ProductMenuAction::Add
    } else if choice == 2 {
        ProductMenuAction::Edit
    } else if choice == 3 {
        ProductMenuAction::Delete
    } else if choice == 4 {
        ProductMenuAction::List
    } else if choice == 0 {
        ProductMenuAction::Back
    } else {
        ProductMenuAction::Invalid
    }
}

/// The entry of the report menu that a number stands for.
pub open spec fn report_menu_entry(choice: u32) -> ReportMenuAction {
    if choice == 1 {
        ReportMenuAction::Inventory
    } else if choice == 2 {
        ReportMenuAction::Sales
    } else if choice == 3 {
        ReportMenuAction::Purchases
    } else if choice == 0 {
        ReportMenuAction::Back
    } else {
        ReportMenuAction::Invalid
    }
}

impl MainMenuAction {
    /// Purchases and user management are for administrators.
    pub open spec fn admin_only(self) -> bool {
        self == MainMenuAction::Purchases || self == MainMenuAction::UserManagement
    }
}

impl ProductMenuAction {
    /// Whatever changes the products is for administrators; the list is for
    /// everybody.
    pub open spec fn admin_only(self) -> bool {
        self == ProductMenuAction::Add || self == ProductMenuAction::Edit || self
            == ProductMenuAction::Delete
    }
}

impl ReportMenuAction {
    /// The purchase report is for administrators.
    pub open spec fn admin_only(self) -> bool {
        self == ReportMenuAction::Purchases
    }
}

/// Where a choice in the main menu leads: to the entry that the number
/// stands for, unless that entry is for administrators and the user is none.
pub fn main_menu_action(choice: u32, admin: bool) -> (action: MainMenuAction)
    ensures
        action == if main_menu_entry(choice).admin_only() && !admin {
            MainMenuAction::Denied
        } else {
            main_menu_entry(choice)
        },
{
    match choice {
        1 => MainMenuAction::ProductManagement,
        2 => MainMenuAction::Sales,
        3 => if admin {
            MainMenuAction::Purchases
        } else {
            MainMenuAction::Denied
        },
        4 => MainMenuAction::Reports,
        5 => if admin {
            MainMenuAction::UserManagement
        } else {
            MainMenuAction::Denied
        },
        0 => MainMenuAction::Exit,
        _ => MainMenuAction::Invalid,
    }
}

/// Where a choice in the product menu leads: to the entry that the number
/// stands for, unless that entry is for administrators and the user is none.
pub fn product_menu_action(choice: u32, admin: bool) -> (action: ProductMenuAction)
    ensures
        action == if product_menu_entry(choice).admin_only() && !admin {
            ProductMenuAction::Denied
        } else {
            product_menu_entry(choice)
        },
{
    match choice {
        1 => if admin {
            ProductMenuAction::Add
        } else {
            ProductMenuAction::Denied
        },
        2 => if admin {
            ProductMenuAction::Edit
        } else {
            ProductMenuAction::Denied
        },
        3 => if admin {
            ProductMenuAction::Delete
        } else {
            ProductMenuAction::Denied
        },
        4 => ProductMenuAction::List,
        0 => ProductMenuAction::Back,
        _ => ProductMenuAction::Invalid,
    }
}

/// Where a choice in the report menu leads: to the entry that the number
/// stands for, unless that entry is for administrators and the user is none.
pub fn report_menu_action(choice: u32, admin: bool) -> (action: ReportMenuAction)
    ensures
        action == if report_menu_entry(choice).admin_only() && !admin {
            ReportMenuAction::Denied
        } else {
            report_menu_entry(choice)
        },
{
    match choice {
        1 => ReportMenuAction::Inventory,
        2 => ReportMenuAction::Sales,
        3 => if admin {
            ReportMenuAction::Purchases
        } else {
            ReportMenuAction::Denied
        },
        0 => ReportMenuAction::Back,
        _ => ReportMenuAction::Invalid,
    }
}

/// Where a choice in the user menu leads. The menu as a whole is for
/// administrators, so none of its entries is gated again.
pub fn user_menu_action(choice: u32) -> (action: UserMenuAction)
    ensures
        action == if choice == 1 {
            UserMenuAction::Add
        } else if choice == 2 {
            UserMenuAction::List
        } else if choice == 0 {
            UserMenuAction::Back
        } else {
            UserMenuAction::Invalid
        },
{
    match choice {
        1 => UserMenuAction::Add,
        2 => UserMenuAction::List,
        0 => UserMenuAction::Back,
        _ => UserMenuAction::Invalid,
    }
}

/// Whether a text is the answer yes: the one letter `e`, small or capital.
pub open spec fn says_yes(answer: Seq<char>) -> bool {
    answer == seq!['e'] || answer == seq!['E']
}

/// Whether the answer to a yes-or-no question is yes.
pub fn is_yes(answer: &str) -> (yes: bool)
    ensures
        yes == says_yes(answer@),
{
    if answer.unicode_len() != 1 {
        return false;
    }
    let letter = answer.get_char(0);
    assert(answer@ =~= seq![letter]);
    letter == 'e' || letter == 'E'
}

/// The role of a new user, from the answer to the question whether the user
/// is an administrator.
pub fn role_for_answer(answer: &str) -> (role: Role)
    ensures
        role == if says_yes(answer@) {
            Role::Admin
        } else {
            Role::Employee
        },
{
    if is_yes(answer) {
        Role::Admin
    } else {
        Role::Employee
    }
}

} // verus!
