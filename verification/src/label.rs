//! Labels: the human-readable name of an output, made from what the output
//! says of itself.

use vstd::prelude::*;
use crate::text::opt_view;

verus! {

/// Whether a character counts as white space: whether it is one of the
/// characters to which Unicode gives the property White_Space. These are the
/// tab, the line feed, the vertical tab, the form feed and the carriage
/// return (U+0009 to U+000D), the space (U+0020), the next line (U+0085), the
/// no-break space (U+00A0), the ogham space mark (U+1680), the spaces of
/// fixed width (U+2000 to U+200A), the line and the paragraph separator
/// (U+2028, U+2029), the narrow no-break space (U+202F), the medium
/// mathematical space (U+205F) and the ideographic space (U+3000).
pub open spec fn is_whitespace(c: char) -> bool {
    let n = c as u32;
    ||| 0x09 <= n <= 0x0d
    ||| n == 0x20
    ||| n == 0x85
    ||| n == 0xa0
    ||| n == 0x1680
    ||| 0x2000 <= n <= 0x200a
    ||| n == 0x2028
    ||| n == 0x2029
    ||| n == 0x202f
    ||| n == 0x205f
    ||| n == 0x3000
}

/// Whether a character counts as white space.
pub fn char_is_whitespace(c: char) -> (b: bool)
    ensures
        b == is_whitespace(c),
{
    let n: u32 = c as u32;
    (0x09 <= n && n <= 0x0d) || n == 0x20 || n == 0x85 || n == 0xa0 || n == 0x1680 || (0x2000 <= n
        && n <= 0x200a) || n == 0x2028 || n == 0x2029 || n == 0x202f || n == 0x205f || n == 0x3000
}

/// The text without the white space at its start.
pub open spec fn trim_start(s: Seq<char>) -> Seq<char>
    decreases s.len(),
{
    if s.len() > 0 && is_whitespace(s.first()) {
        trim_start(s.drop_first())
    } else {
        s
    }
}

/// The text without the white space at its end.
pub open spec fn trim_end(s: Seq<char>) -> Seq<char>
    decreases s.len(),
{
    if s.len() > 0 && is_whitespace(s.last()) {
        trim_end(s.drop_last())
    } else {
        s
    }
}

/// The text without the white space at either end.
pub open spec fn trimmed(s: Seq<char>) -> Seq<char> {
    trim_end(trim_start(s))
}

/// The text without the white space at either end.
pub fn trim(s: &str) -> (r: String)
    ensures
        r@ == trimmed(s@),
{
    let n = s.unicode_len();
    let mut start: usize = 0;
    let mut scanning = true;
    assert(s@.subrange(0, n as int) =~= s@);
    while scanning && start < n
        invariant
            n == s@.len(),
            start <= n,
            trim_start(s@) == trim_start(s@.subrange(start as int, n as int)),
            !scanning ==> start < n && !is_whitespace(s@[start as int]),
        decreases n - start + if scanning { 1int } else { 0int },
    {
        if char_is_whitespace(s.get_char(start)) {
            assert(s@.subrange(start as int, n as int).drop_first() =~= s@.subrange(
                start as int + 1,
                n as int,
            ));
            start = start + 1;
        } else {
            scanning = false;
        }
    }
    assert(trim_start(s@) == s@.subrange(start as int, n as int));
    let mut end: usize = n;
    scanning = true;
    while scanning && start < end
        invariant
            n == s@.len(),
            start <= end <= n,
            trimmed(s@) == trim_end(s@.subrange(start as int, end as int)),
            !scanning ==> start < end && !is_whitespace(s@[end as int - 1]),
        decreases end - start + if scanning { 1int } else { 0int },
    {
        if char_is_whitespace(s.get_char(end - 1)) {
            assert(s@.subrange(start as int, end as int).drop_last() =~= s@.subrange(
                start as int,
                end as int - 1,
            ));
            end = end - 1;
        } else {
            scanning = false;
        }
    }
    assert(trimmed(s@) == s@.subrange(start as int, end as int));
    String::from_str(s.substring_char(start, end))
}

/// What an output has said of itself so far.
#[derive(Clone, Debug)]
pub struct OutputInfo {
    pub name: Option<String>,
    pub description: Option<String>,
    pub make: Option<String>,
    pub model: Option<String>,
}

pub struct OutputInfoView {
    pub name: Option<Seq<char>>,
    pub description: Option<Seq<char>>,
    pub make: Option<Seq<char>>,
    pub model: Option<Seq<char>>,
}

impl View for OutputInfo {
    type V = OutputInfoView;

    open spec fn view(&self) -> OutputInfoView {
        OutputInfoView {
            name: opt_view(self.name),
            description: opt_view(self.description),
            make: opt_view(self.make),
            model: opt_view(self.model),
        }
    }
}

/// The text of a field, empty where the field is absent.
pub open spec fn or_empty(o: Option<Seq<char>>) -> Seq<char> {
    match o {
        Some(s) => s,
        None => Seq::empty(),
    }
}

impl OutputInfoView {
    /// The label: the name if it is not empty; else the description if it is
    /// not empty; else vendor and model with a space between them and the
    /// white space at either end taken off, if one of the two is not empty;
    /// else none.
    pub open spec fn label(self) -> Option<Seq<char>> {
        if or_empty(self.name).len() > 0 {
            self.name
        } else if or_empty(self.description).len() > 0 {
            self.description
        } else if or_empty(self.make).len() > 0 || or_empty(self.model).len() > 0 {
            Some(trimmed(or_empty(self.make) + seq![' '] + or_empty(self.model)))
        } else {
            None
        }
    }
}

impl Default for OutputInfo {
    fn default() -> (info: OutputInfo)
        ensures
            info@ == (OutputInfoView { name: None, description: None, make: None, model: None }),
    {
        OutputInfo { name: None, description: None, make: None, model: None }
    }
}

fn is_filled(field: &Option<String>) -> (b: bool)
    ensures
        b == (or_empty(opt_view(*field)).len() > 0),
{
    match field {
        Some(s) => !s.as_str().is_empty(),
        None => false,
    }
}

fn append_field(text: &mut String, field: &Option<String>)
    ensures
        final(text)@ == old(text)@ + or_empty(opt_view(*field)),
{
    match field {
        Some(s) => {
            text.append(s.as_str());
        },
        None => {
            assert(text@ + Seq::<char>::empty() =~= text@);
        },
    }
}

impl OutputInfo {
    /// The label of the output, by the precedence that `OutputInfoView::label`
    /// states.
    pub fn label(&self) -> (r: Option<String>)
        ensures
            opt_view(r) == self@.label(),
    {
        if is_filled(&self.name) {
            return crate::text::opt_clone(&self.name);
        }
        if is_filled(&self.description) {
            return crate::text::opt_clone(&self.description);
        }
        if is_filled(&self.make) || is_filled(&self.model) {
            let mut joined = String::new();
            append_field(&mut joined, &self.make);
            joined.append(" ");
            append_field(&mut joined, &self.model);
            proof {
                reveal_strlit(" ");
                assert(" "@ =~= seq![' ']);
                assert(joined@ =~= or_empty(self@.make) + seq![' '] + or_empty(self@.model));
            }
            return Some(trim(joined.as_str()));
        }
        None
    }
}

} // verus!
