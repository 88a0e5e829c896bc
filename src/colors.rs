//! ANSI colour escape sequences used on the console.

use vstd::prelude::*;

verus! {

pub const RESET: &'static str = "\x1B[0m";
pub const RED: &'static str = "\x1B[0;31m";
pub const YELLOW: &'static str = "\x1B[0;33m";
pub const WHITE: &'static str = "\x1B[0;37m";
pub const BOLD_GREEN: &'static str = "\x1B[1;32m";
pub const BOLD_YELLOW: &'static str = "\x1B[1;33m";
pub const BOLD_BLUE: &'static str = "\x1B[1;34m";

} // verus!
