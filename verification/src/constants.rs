//! Control characters used on the raw keystroke channel.

use vstd::prelude::*;

verus! {

/// Forwarded when the backspace key is pressed.
pub const BACKSPACE: char = '\u{8}';

/// Forwarded when the escape key (or the equivalent quit gesture) is pressed.
pub const ESC: char = '\u{1b}';

/// Stands for "no character"; never stored in a buffer line.
pub const NULL: char = '\u{0}';

/// Forwarded when the enter key is pressed.
pub const CR: char = '\n';

} // verus!
