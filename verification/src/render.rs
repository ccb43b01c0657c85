//! The text of a menu as it is printed.
//!
//! A menu is printed as a blank line at the menu's indentation, a rule, one
//! line per entry made of the entry's position and its prompt, and a final
//! `> ` on which the cursor waits. The position printed before an entry is
//! the key that picks it.

use vstd::prelude::*;
use crate::menu::MenuOption;

verus! {

/// The character of a decimal digit.
pub open spec fn digit_char(d: nat) -> char
    recommends
        d < 10,
{
    ('0' as u8 + d as u8) as char
}

/// A number written in decimal, without sign or leading zeros.
pub open spec fn decimal(n: nat) -> Seq<char>
    decreases n,
{
    if n < 10 {
        seq![digit_char(n)]
    } else {
        decimal(n / 10).push(digit_char(n % 10))
    }
}

/// The white space before every line of a menu at nesting `depth`: two
/// blanks per level.
pub open spec fn indentation(depth: nat) -> Seq<char>
    decreases depth,
{
    if depth == 0 {
        Seq::empty()
    } else {
        indentation((depth - 1) as nat) + "  "@
    }
}

/// The rule under which the entries are listed.
pub open spec fn rule_text() -> Seq<char> {
    "-----------------------------------"@
}

/// The line of the entry at `position`, with its line ending.
pub open spec fn entry_line(indent: Seq<char>, position: nat, option: MenuOption) -> Seq<char> {
    indent + decimal(position) + ") "@ + option.prompt_text() + "\n"@
}

/// The lines of the first `count` entries, one after the other.
pub open spec fn entry_lines(options: Seq<MenuOption>, indent: Seq<char>, count: nat) -> Seq<char>
    recommends
        count <= options.len(),
    decreases count,
{
    if count == 0 {
        Seq::empty()
    } else {
        entry_lines(options, indent, (count - 1) as nat) + entry_line(
            indent,
            (count - 1) as nat,
            options[count - 1],
        )
    }
}

/// Everything that is printed for a menu of `options` at nesting `depth`.
pub open spec fn menu_text(options: Seq<MenuOption>, depth: nat) -> Seq<char> {
    indentation(depth) + "\n"@ + rule_text() + "\n"@ + entry_lines(
        options,
        indentation(depth),
        options.len(),
    ) + indentation(depth) + "> "@
}

/// One decimal digit as text.
fn digit_text(d: usize) -> (text: &'static str)
    requires
        d < 10,
    ensures
        text@ == seq![digit_char(d as nat)],
{
    proof {
        reveal_strlit("0");
        reveal_strlit("1");
        reveal_strlit("2");
        reveal_strlit("3");
        reveal_strlit("4");
        reveal_strlit("5");
        reveal_strlit("6");
        reveal_strlit("7");
        reveal_strlit("8");
        reveal_strlit("9");
    }
    let text = if d == 0 {
        "0"
    } else if d == 1 {
        "1"
    } else if d == 2 {
        "2"
    } else if d == 3 {
        "3"
    } else if d == 4 {
        "4"
    } else if d == 5 {
        "5"
    } else if d == 6 {
        "6"
    } else if d == 7 {
        "7"
    } else if d == 8 {
        "8"
    } else {
        "9"
    };
    assert(text@ =~= seq![digit_char(d as nat)]);
    text
}

/// Appends `n` in decimal.
fn append_decimal(text: &mut String, n: usize)
    ensures
        final(text)@ == old(text)@ + decimal(n as nat),
    decreases n,
{
    if n < 10 {
        text.append(digit_text(n));
    } else {
        append_decimal(text, n / 10);
        text.append(digit_text(n % 10));
        assert(text@ =~= old(text)@ + decimal(n as nat));
    }
}

/// The white space before every line of a menu at nesting `depth`.
pub fn indent_text(depth: usize) -> (text: String)
    ensures
        text@ == indentation(depth as nat),
{
    let mut text = String::new();
    let mut level: usize = 0;
    while level < depth
        invariant
            level <= depth,
            text@ == indentation(level as nat),
        decreases depth - level,
    {
        text.append("  ");
        level = level + 1;
    }
    text
}

/// The text to print for a menu of `options` at nesting `depth`; the cursor
/// is left behind the final `> `.
pub fn render_menu(options: &Vec<MenuOption>, depth: usize) -> (text: String)
    ensures
        text@ == menu_text(options@, depth as nat),
{
    let indent = indent_text(depth);
    let mut text = indent.clone();
    text.append("\n");
    text.append("-----------------------------------");
    text.append("\n");
    let ghost head = text@;
    assert(head =~= indentation(depth as nat) + "\n"@ + rule_text() + "\n"@);
    let mut position: usize = 0;
    while position < options.len()
        invariant
            position <= options.len(),
            indent@ == indentation(depth as nat),
            text@ == head + entry_lines(options@, indent@, position as nat),
        decreases options.len() - position,
    {
        let ghost before = text@;
        text.append(indent.as_str());
        append_decimal(&mut text, position);
        text.append(") ");
        text.append(options[position].prompt());
        text.append("\n");
        assert(text@ =~= before + entry_line(indent@, position as nat, options@[position as int]));
        position = position + 1;
        assert(text@ =~= head + entry_lines(options@, indent@, position as nat));
    }
    text.append(indent.as_str());
    text.append("> ");
    assert(text@ =~= menu_text(options@, depth as nat));
    text
}

} // verus!
