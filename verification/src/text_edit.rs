//! An editable text buffer and the case-toggling action applied to a text
//! selection. The widget drawing around it is the GUI shell's business;
//! the text decisions live here.

use vstd::prelude::*;

verus! {

/// The uppercase equivalent of a text, as str::to_uppercase computes it.
pub uninterp spec fn upper_of(s: Seq<char>) -> Seq<char>;

/// The lowercase equivalent of a text, as str::to_lowercase computes it.
pub uninterp spec fn lower_of(s: Seq<char>) -> Seq<char>;

/// Relies on str::to_uppercase: the uppercase equivalent of the text, a
/// function of the characters alone.
#[verifier::external_body]
fn to_uppercase_text(s: &String) -> (r: String)
    ensures
        r@ == upper_of(s@),
{
    s.to_uppercase()
}

/// Relies on str::to_lowercase: the lowercase equivalent of the text, a
/// function of the characters alone.
#[verifier::external_body]
fn to_lowercase_text(s: &String) -> (r: String)
    ensures
        r@ == lower_of(s@),
{
    s.to_lowercase()
}

/// The replacement for a selection when its case is toggled: a selection
/// already all in upper case turns lower case, anything else turns upper
/// case.
pub fn toggle_case(selected: &String) -> (r: String)
    ensures
        r@ == (if selected@ == upper_of(selected@) {
            lower_of(selected@)
        } else {
            upper_of(selected@)
        }),
{
    let upper = to_uppercase_text(selected);
    if upper == *selected {
        to_lowercase_text(selected)
    } else {
        upper
    }
}

/// An editable text buffer.
#[derive(Debug, PartialEq)]
pub struct TextEdit {
    pub text: String,
}

impl TextEdit {
    /// Replaces the selected character range with a new text.
    pub fn replace_range(&mut self, start: usize, end: usize, replacement: &String)
        requires
            0 <= start <= end <= old(self).text@.len(),
        ensures
            final(self).text@ == old(self).text@.subrange(0, start as int) + replacement@ + old(
                self,
            ).text@.subrange(end as int, old(self).text@.len() as int),
    {
        let n = self.text.as_str().unicode_len();
        let prefix: String = self.text.as_str().substring_char(0, start).to_owned();
        let suffix: String = self.text.as_str().substring_char(end, n).to_owned();
        let mut out = prefix;
        out.append(replacement.as_str());
        out.append(suffix.as_str());
        self.text = out;
    }
}

impl Default for TextEdit {
    /// A buffer holding the starting text.
    fn default() -> (r: TextEdit)
        ensures
            r.text@ == "Edit this text"@,
    {
        TextEdit { text: "Edit this text".to_owned() }
    }
}

} // verus!
