//! The token-substitution template engine. A template is ordinary text
//! with `{{key}}` tokens; each token is replaced by the page value of
//! that name, or by the prebuilt stylesheet/script link HTML for the two
//! reserved names. Whitespace inside a token is dropped, so `{{ key }}`
//! names `key`.
//!
//! The engine is a three-state machine over the input characters;
//! `tpl_run` is that machine, and `parse` is proved to compute exactly
//! its result.

use vstd::prelude::*;
use vstd::string::StrSliceExecFns;
use vstd::string::StringExecFns;

use crate::globals::Globals;

verus! {

/// Where the machine stands: in plain text, inside a `{{…` token, or
/// just after a `}` inside a token.
#[derive(Clone, Copy, Debug, PartialEq, Eq, Structural)]
pub enum TplState {
    Raw,
    Replacement,
    ReplacementEnd,
}

/// Why a parse was refused.
#[derive(Clone, Copy, Debug, PartialEq, Eq, Structural)]
pub enum TemplateError {
    /// The input ended inside a token.
    UnclosedToken,
    /// A `}` inside a token was not followed by a second `}`.
    BadTokenEnd,
    /// A token names no known value.
    UnknownKey,
}

/// The characters dropped inside a token: Unicode whitespace.
pub open spec fn is_tpl_space(c: char) -> bool {
    ||| ('\u{9}' <= c && c <= '\u{D}')
    ||| c == ' '
    ||| c == '\u{85}'
    ||| c == '\u{A0}'
    ||| c == '\u{1680}'
    ||| ('\u{2000}' <= c && c <= '\u{200A}')
    ||| c == '\u{2028}'
    ||| c == '\u{2029}'
    ||| c == '\u{202F}'
    ||| c == '\u{205F}'
    ||| c == '\u{3000}'
}

/// Whether `c` is dropped inside a token.
pub fn is_tpl_space_char(c: char) -> (r: bool)
    ensures
        r == is_tpl_space(c),
{
    ('\u{9}' <= c && c <= '\u{D}') || c == ' ' || c == '\u{85}' || c == '\u{A0}' || c == '\u{1680}'
        || ('\u{2000}' <= c && c <= '\u{200A}') || c == '\u{2028}' || c == '\u{2029}' || c
        == '\u{202F}' || c == '\u{205F}' || c == '\u{3000}'
}

/// What a token named `key` stands for: the stylesheet links, the script
/// links, or the page value of that name.
pub open spec fn replacement_of(
    key: Seq<char>,
    vals: Map<Seq<char>, Seq<char>>,
    css: Seq<char>,
    js: Seq<char>,
) -> Option<Seq<char>> {
    if key == "css"@ {
        Some(css)
    } else if key == "js"@ {
        Some(js)
    } else if vals.contains_key(key) {
        Some(vals[key])
    } else {
        None
    }
}

/// The engine itself: one step per input character, carrying the state,
/// the previous character (plain text is emitted one character late, so
/// `{{` can be recognised), the output so far, and the token name being
/// collected. At the end of the input, a pending character is flushed —
/// also after a lone `}` of a token end — and an open token is refused.
pub open spec fn tpl_run(
    input: Seq<char>,
    st: TplState,
    prev: Option<char>,
    out: Seq<char>,
    repl: Seq<char>,
    vals: Map<Seq<char>, Seq<char>>,
    css: Seq<char>,
    js: Seq<char>,
) -> Result<Seq<char>, TemplateError>
    decreases input.len(),
{
    if input.len() == 0 {
        match st {
            TplState::Replacement => Err(TemplateError::UnclosedToken),
            _ => match prev {
                Some(p) => Ok(out.push(p)),
                None => Ok(out),
            },
        }
    } else {
        let ch = input.first();
        let rest = input.drop_first();
        match st {
            TplState::Raw => {
                if prev == Some('{') && ch == '{' {
                    tpl_run(rest, TplState::Replacement, prev, out, Seq::empty(), vals, css, js)
                } else {
                    match prev {
                        Some(p) => tpl_run(
                            rest,
                            TplState::Raw,
                            Some(ch),
                            out.push(p),
                            repl,
                            vals,
                            css,
                            js,
                        ),
                        None => tpl_run(rest, TplState::Raw, Some(ch), out, repl, vals, css, js),
                    }
                }
            },
            TplState::Replacement => {
                if ch == '}' {
                    tpl_run(rest, TplState::ReplacementEnd, Some('}'), out, repl, vals, css, js)
                } else if is_tpl_space(ch) {
                    tpl_run(rest, TplState::Replacement, Some(ch), out, repl, vals, css, js)
                } else {
                    tpl_run(
                        rest,
                        TplState::Replacement,
                        Some(ch),
                        out,
                        repl.push(ch),
                        vals,
                        css,
                        js,
                    )
                }
            },
            TplState::ReplacementEnd => {
                if prev == Some('}') && ch == '}' {
                    match replacement_of(repl, vals, css, js) {
                        Some(rep) => tpl_run(rest, TplState::Raw, None, out + rep, repl, vals, css, js),
                        None => Err(TemplateError::UnknownKey),
                    }
                } else {
                    Err(TemplateError::BadTokenEnd)
                }
            },
        }
    }
}

/// Resolve one token name against `globals`.
pub fn get_replacement<'g>(sequence: &str, globals: &'g Globals) -> (r: Option<&'g str>)
    requires
        globals.wf(),
    ensures
        match r {
            Some(s) => replacement_of(
                sequence@,
                globals.spec_values(),
                globals.spec_css_links(),
                globals.spec_js_links(),
            ) == Some(s@),
            None => replacement_of(
                sequence@,
                globals.spec_values(),
                globals.spec_css_links(),
                globals.spec_js_links(),
            ) is None,
        },
{
    if crate::strutil::str_eq(sequence, "css") {
        Some(globals.get_css_links())
    } else if crate::strutil::str_eq(sequence, "js") {
        Some(globals.get_js_links())
    } else {
        globals.get(sequence)
    }
}

/// Substitute every token of `template` against `globals`: exactly what
/// the machine `tpl_run` yields from its starting state.
pub fn parse(template: &str, globals: &Globals) -> (r: Result<String, TemplateError>)
    requires
        globals.wf(),
    ensures
        match r {
            Ok(out) => tpl_run(
                template@,
                TplState::Raw,
                None,
                Seq::empty(),
                Seq::empty(),
                globals.spec_values(),
                globals.spec_css_links(),
                globals.spec_js_links(),
            ) == Ok::<Seq<char>, TemplateError>(out@),
            Err(e) => tpl_run(
                template@,
                TplState::Raw,
                None,
                Seq::empty(),
                Seq::empty(),
                globals.spec_values(),
                globals.spec_css_links(),
                globals.spec_js_links(),
            ) == Err::<Seq<char>, TemplateError>(e),
        },
{
    let ghost vals = globals.spec_values();
    let ghost css = globals.spec_css_links();
    let ghost js = globals.spec_js_links();
    let n: usize = template.unicode_len();
    let mut st: TplState = TplState::Raw;
    let mut prev: Option<char> = None;
    let mut out: String = String::new();
    let mut repl: String = String::new();
    let mut i: usize = 0;
    proof {
        assert(template@.skip(0) =~= template@);
    }
    while i < n
        invariant
            i <= n,
            n == template@.len(),
            globals.wf(),
            vals == globals.spec_values(),
            css == globals.spec_css_links(),
            js == globals.spec_js_links(),
            tpl_run(template@.skip(i as int), st, prev, out@, repl@, vals, css, js) == tpl_run(
                template@,
                TplState::Raw,
                None,
                Seq::empty(),
                Seq::empty(),
                vals,
                css,
                js,
            ),
        decreases n - i,
    {
        let ch: char = template.get_char(i);
        proof {
            assert(template@.skip(i as int).len() > 0);
            assert(template@.skip(i as int).first() == ch);
            assert(template@.skip(i as int).drop_first() =~= template@.skip(i as int + 1));
        }
        match st {
            TplState::Raw => {
                let is_open: bool = (match prev {
                    Some(p) => p == '{',
                    None => false,
                }) && ch == '{';
                if is_open {
                    st = TplState::Replacement;
                    repl = String::new();
                } else {
                    match prev {
                        Some(p) => {
                            crate::strutil::push_char(&mut out, p);
                        },
                        None => {},
                    }
                    prev = Some(ch);
                }
            },
            TplState::Replacement => {
                if ch == '}' {
                    st = TplState::ReplacementEnd;
                    prev = Some('}');
                } else if is_tpl_space_char(ch) {
                    prev = Some(ch);
                } else {
                    crate::strutil::push_char(&mut repl, ch);
                    prev = Some(ch);
                }
            },
            TplState::ReplacementEnd => {
                let is_close: bool = (match prev {
                    Some(p) => p == '}',
                    None => false,
                }) && ch == '}';
                if is_close {
                    match get_replacement(repl.as_str(), globals) {
                        Some(rep) => {
                            out.append(rep);
                            st = TplState::Raw;
                            prev = None;
                        },
                        None => {
                            return Err(TemplateError::UnknownKey);
                        },
                    }
                } else {
                    return Err(TemplateError::BadTokenEnd);
                }
            },
        }
        i = i + 1;
    }
    proof {
        assert(template@.skip(n as int) =~= Seq::<char>::empty());
    }
    match st {
        TplState::Replacement => Err(TemplateError::UnclosedToken),
        _ => {
            match prev {
                Some(p) => {
                    crate::strutil::push_char(&mut out, p);
                },
                None => {},
            }
            Ok(out)
        },
    }
}

} // verus!
