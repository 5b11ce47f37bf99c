use vstd::prelude::*;

pub mod nav;
pub mod order;
pub mod theme;
pub mod select;
pub mod checkboxes;
pub mod order_list;
pub mod prompts;

pub use checkboxes::{CheckState, Checkboxes};
pub use nav::{Key, Nav, Step};
pub use order_list::{OrderList, OrderState};
pub use prompts::{Confirmation, Input, PasswordInput, Validator, Verdict};
pub use select::{Select, SelectState};
pub use theme::{SimpleTheme, Theme};

verus! {

} // verus!
