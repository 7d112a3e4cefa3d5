//! The `/diario` command: quotes saved in the RYG diary.
use vstd::prelude::*;
use vstd::string::StringExecFns;
use crate::ext_regex::{group_views, regex_captures, regex_captures_of};
use crate::models::Diario;
use crate::roll::group;
use crate::text::{escape_html, int_decimal, push_char, push_decimal_i64, push_escaped};

verus! {

/// The pattern of a diary line: an optional content warning in brackets, the
/// quote in double quotes, then optionally dashes, who said it and, after a
/// comma, the context.
pub const DIARIO_PATTERN: &'static str = " *(?:\\[(?<warning>.+)])? *\"(?<quote>.+)\"[, ]*(?:[-–—]+(?<quoted>[^\\n,]+)(?:, *(?<context>.+))?)?";

/// A quote to be added to the diary, as written in the command.
#[derive(Debug, Clone, PartialEq, Eq)]
pub struct DiarioArgs {
    pub warning: Option<String>,
    pub quote: String,
    pub quoted: Option<String>,
    pub context: Option<String>,
}

/// The text of a [`DiarioArgs`].
pub struct DiarioArgsView {
    pub warning: Option<Seq<char>>,
    pub quote: Seq<char>,
    pub quoted: Option<Seq<char>>,
    pub context: Option<Seq<char>>,
}

pub open spec fn opt_view(o: Option<String>) -> Option<Seq<char>> {
    match o {
        Some(s) => Some(s@),
        None => None,
    }
}

impl View for DiarioArgs {
    type V = DiarioArgsView;

    open spec fn view(&self) -> DiarioArgsView {
        DiarioArgsView {
            warning: opt_view(self.warning),
            quote: self.quote@,
            quoted: opt_view(self.quoted),
            context: opt_view(self.context),
        }
    }
}

/// Why the text of the command holds no quote.
#[derive(Debug, Clone, Copy, PartialEq, Eq, Structural)]
pub enum DiarioError {
    NoQuote,
    EmptyQuote,
}

impl DiarioError {
    /// The message shown for the error.
    pub fn message(&self) -> (r: &'static str)
        ensures
            r@ == (match self {
                DiarioError::NoQuote => "Citazione non specificata nel comando."@,
                DiarioError::EmptyQuote => "la citazione non deve essere vuota."@,
            }),
    {
        match self {
            DiarioError::NoQuote => "Citazione non specificata nel comando.",
            DiarioError::EmptyQuote => "la citazione non deve essere vuota.",
        }
    }
}

/// The quote that the text `s` holds, given the groups that
/// [`DIARIO_PATTERN`] captured in it: warning, quote, who said it and context
/// are groups 1 to 4. Text that the pattern does not match is all quote.
pub open spec fn diario_args_of(s: Seq<char>, captures: Option<Seq<Option<Seq<char>>>>) -> Result<DiarioArgsView, DiarioError> {
    match captures {
        Some(groups) => match group(groups, 2) {
            None => Err(DiarioError::NoQuote),
            Some(quote) => Ok(DiarioArgsView {
                warning: group(groups, 1),
                quote,
                quoted: group(groups, 3),
                context: group(groups, 4),
            }),
        },
        None => if s.len() == 0 {
            Err(DiarioError::EmptyQuote)
        } else {
            Ok(DiarioArgsView { warning: None, quote: s, quoted: None, context: None })
        },
    }
}

fn group_string(groups: &Vec<Option<String>>, i: usize) -> (r: Option<String>)
    ensures
        opt_view(r) == group(group_views(groups@), i as int),
{
    if i < groups.len() {
        match &groups[i] {
            Some(t) => Some(t.clone()),
            None => None,
        }
    } else {
        None
    }
}

impl DiarioArgs {
    /// Reads a quote from the text of the command and the groups that
    /// [`DIARIO_PATTERN`] captured in it.
    pub fn from_captures(s: &str, captures: Option<Vec<Option<String>>>) -> (r: Result<Self, DiarioError>)
        ensures
            r matches Ok(args) ==> diario_args_of(s@, match captures {
                Some(groups) => Some(group_views(groups@)),
                None => None,
            }) == Ok::<DiarioArgsView, DiarioError>(args@),
            r matches Err(e) ==> diario_args_of(s@, match captures {
                Some(groups) => Some(group_views(groups@)),
                None => None,
            }) == Err::<DiarioArgsView, DiarioError>(e),
    {
        match captures {
            Some(groups) => {
                let warning = group_string(&groups, 1);
                let quote = match group_string(&groups, 2) {
                    Some(q) => q,
                    None => return Err(DiarioError::NoQuote),
                };
                let quoted = group_string(&groups, 3);
                let context = group_string(&groups, 4);
                Ok(DiarioArgs { warning, quote, quoted, context })
            },
            None => {
                if s.is_empty() {
                    return Err(DiarioError::EmptyQuote);
                }
                Ok(DiarioArgs { warning: None, quote: String::from_str(s), quoted: None, context: None })
            },
        }
    }

    /// Reads a quote from the text of the command.
    pub fn parse(s: &str) -> (r: Result<Self, DiarioError>)
        ensures
            r matches Ok(args) ==> diario_args_of(s@, regex_captures_of(DIARIO_PATTERN@, s@))
                == Ok::<DiarioArgsView, DiarioError>(args@),
            r matches Err(e) ==> diario_args_of(s@, regex_captures_of(DIARIO_PATTERN@, s@))
                == Err::<DiarioArgsView, DiarioError>(e),
    {
        Self::from_captures(s, regex_captures(DIARIO_PATTERN, s))
    }
}

impl core::str::FromStr for DiarioArgs {
    type Err = DiarioError;

    fn from_str(s: &str) -> (r: Result<Self, Self::Err>)
        ensures
            r matches Ok(args) ==> diario_args_of(s@, regex_captures_of(DIARIO_PATTERN@, s@))
                == Ok::<DiarioArgsView, DiarioError>(args@),
            r matches Err(e) ==> diario_args_of(s@, regex_captures_of(DIARIO_PATTERN@, s@))
                == Err::<DiarioArgsView, DiarioError>(e),
    {
        Self::parse(s)
    }
}

/// A line of the diary as shown in Telegram HTML: its number and content
/// warning, the quote in a block (under a spoiler where there is a warning),
/// then who said it and the context.
pub open spec fn diario_text(d: Diario) -> Seq<char> {
    "<code>#"@ + int_decimal(d.id as int) + "</code>"@
    + (match d.warning {
        Some(w) => ", <b>"@ + escape_html(w@) + "</b>"@,
        None => Seq::empty(),
    })
    + seq!['\n']
    + (match d.warning {
        None => "<blockquote expandable>"@ + escape_html(d.quote@) + "</blockquote>"@,
        Some(_) => "<blockquote expandable><tg-spoiler>"@ + escape_html(d.quote@) + "</tg-spoiler></blockquote>"@,
    })
    + seq!['\n']
    + (match (d.quoted_name, d.context) {
        (Some(name), Some(context)) => "—"@ + escape_html(name@) + ", <i>"@ + escape_html(context@) + "</i>"@,
        (Some(name), None) => "—"@ + escape_html(name@),
        (None, Some(context)) => "...<i>"@ + escape_html(context@) + "</i>"@,
        (None, None) => Seq::empty(),
    })
}

impl Diario {
    /// The line as shown in Telegram HTML.
    pub fn to_string_telegram(&self) -> (r: String)
        ensures
            r@ == diario_text(*self),
    {
        let mut f = String::from_str("<code>#");
        push_decimal_i64(&mut f, self.id as i64);
        f.append("</code>");
        let ghost head = f@;
        match &self.warning {
            Some(warning) => {
                f.append(", <b>");
                push_escaped(&mut f, warning.as_str());
                f.append("</b>");
            },
            None => {},
        }
        let ghost with_warning = f@;
        push_char(&mut f, '\n');
        match &self.warning {
            None => {
                f.append("<blockquote expandable>");
                push_escaped(&mut f, self.quote.as_str());
                f.append("</blockquote>");
            },
            Some(_) => {
                f.append("<blockquote expandable><tg-spoiler>");
                push_escaped(&mut f, self.quote.as_str());
                f.append("</tg-spoiler></blockquote>");
            },
        }
        let ghost with_quote = f@;
        push_char(&mut f, '\n');
        match (&self.quoted_name, &self.context) {
            (Some(name), Some(context)) => {
                f.append("—");
                push_escaped(&mut f, name.as_str());
                f.append(", <i>");
                push_escaped(&mut f, context.as_str());
                f.append("</i>");
            },
            (Some(name), None) => {
                f.append("—");
                push_escaped(&mut f, name.as_str());
            },
            (None, Some(context)) => {
                f.append("...<i>");
                push_escaped(&mut f, context.as_str());
                f.append("</i>");
            },
            (None, None) => {},
        }
        assert(f@ =~= diario_text(*self));
        f
    }
}

/// The answer to a saved line: a heading, an empty line, and the line.
pub fn diario_saved_text(entry: &Diario) -> (r: String)
    ensures
        r@ == "🖋 Riga aggiunta al diario!"@ + seq!['\n', '\n'] + diario_text(*entry),
{
    let mut out = String::from_str("🖋 Riga aggiunta al diario!");
    push_char(&mut out, '\n');
    push_char(&mut out, '\n');
    let line = entry.to_string_telegram();
    out.append(line.as_str());
    assert(out@ =~= "🖋 Riga aggiunta al diario!"@ + seq!['\n', '\n'] + diario_text(*entry));
    out
}

/// `t` stands at the start of `s`.
pub open spec fn starts_with(s: Seq<char>, t: Seq<char>) -> bool {
    t.len() <= s.len() && s.subrange(0, t.len() as int) == t
}

/// `t` stands at the end of `s`.
pub open spec fn ends_with(s: Seq<char>, t: Seq<char>) -> bool {
    t.len() <= s.len() && s.subrange(s.len() - t.len(), s.len() as int) == t
}

/// `t` stands somewhere in `s`.
pub open spec fn contains_text(s: Seq<char>, t: Seq<char>) -> bool {
    exists|i: int| 0 <= i && i + t.len() <= s.len() && #[trigger] s.subrange(i, i + t.len()) == t
}

/// What a diary line shows: it starts with the entry's number; the quote,
/// escaped, stands in it; where the line has an author it ends with "—" and
/// the author's escaped name, followed by ", <i>context</i>" where there is
/// a context; with a context and no author it ends with
/// "...<i>context</i>"; with neither it ends with the quote's block and a
/// line break.
pub proof fn law_diario_text_shape(d: Diario)
    ensures
        starts_with(diario_text(d), "<code>#"@ + int_decimal(d.id as int) + "</code>"@),
        contains_text(diario_text(d), escape_html(d.quote@)),
        d.quoted_name matches Some(name) ==> (d.context is None ==> ends_with(diario_text(d), "—"@ + escape_html(name@))),
        d.quoted_name matches Some(name) ==> (d.context matches Some(c) ==> ends_with(
            diario_text(d),
            "—"@ + escape_html(name@) + ", <i>"@ + escape_html(c@) + "</i>"@,
        )),
        d.context matches Some(c) ==> (d.quoted_name is None ==> ends_with(
            diario_text(d),
            "...<i>"@ + escape_html(c@) + "</i>"@,
        )),
        d.quoted_name is None && d.context is None ==> ends_with(diario_text(d), "</blockquote>"@ + seq!['\n']),
{
    let number = "<code>#"@ + int_decimal(d.id as int) + "</code>"@;
    let warning = match d.warning {
        Some(w) => ", <b>"@ + escape_html(w@) + "</b>"@,
        None => Seq::empty(),
    };
    let open_block = match d.warning {
        None => "<blockquote expandable>"@,
        Some(_) => "<blockquote expandable><tg-spoiler>"@,
    };
    let close_block = match d.warning {
        None => "</blockquote>"@,
        Some(_) => "</tg-spoiler></blockquote>"@,
    };
    let quote = escape_html(d.quote@);
    let before_quote = number + warning + seq!['\n'] + open_block;
    let s = diario_text(d);
    let tail = s.subrange((before_quote.len() + quote.len() + close_block.len() + 1) as int, s.len() as int);
    assert(s =~= before_quote + quote + (close_block + seq!['\n'] + tail));
    if let Some(name) = d.quoted_name {
        if let Some(c) = d.context {
            assert(tail =~= "—"@ + escape_html(name@) + ", <i>"@ + escape_html(c@) + "</i>"@);
        } else {
            assert(tail =~= "—"@ + escape_html(name@));
        }
    } else if let Some(c) = d.context {
        assert(tail =~= "...<i>"@ + escape_html(c@) + "</i>"@);
    }
    assert(s.subrange(0, number.len() as int) =~= number);
    assert(s.subrange(before_quote.len() as int, (before_quote.len() + quote.len()) as int) =~= quote);
    assert(contains_text(s, quote));
    assert(s.subrange(s.len() - tail.len(), s.len() as int) =~= tail);
    if d.quoted_name is None && d.context is None {
        reveal_strlit("</blockquote>");
        reveal_strlit("</tg-spoiler></blockquote>");
        let end = "</blockquote>"@ + seq!['\n'];
        assert(close_block.subrange(close_block.len() - 13, close_block.len() as int) =~= "</blockquote>"@);
        assert(s =~= (before_quote + quote + close_block.subrange(0, close_block.len() - 13)) + end);
        assert(s.subrange(s.len() - end.len(), s.len() as int) =~= end);
    }
}

} // verus!
