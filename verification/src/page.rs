//! Page assembly: from a resolved index entry, the (possibly empty)
//! image URL, the admin check, and the navigation targets, build the
//! value store that the page template is rendered against.

use vstd::prelude::*;

use crate::globals::Globals;
use crate::records::record_field_spec;
use crate::records::record_field_value;

verus! {

/// Whether the request carries the admin capability: its first cookie
/// named `session` holds exactly the process's secret.
pub fn admin_access(cookies: &Vec<(String, String)>, secret: &str) -> (r: bool)
    ensures
        r == match record_field_spec(cookies.deep_view(), "session"@) {
            Some(v) => v == secret@,
            None => false,
        },
{
    match record_field_value(cookies, "session") {
        Some(v) => crate::strutil::str_eq(v.as_str(), secret),
        None => false,
    }
}

/// What a navigation link's `…_disabled` value is: `disabled` when there
/// is no target.
pub open spec fn disabled_value_spec(href: Option<Seq<char>>) -> Seq<char> {
    match href {
        Some(_) => ""@,
        None => "disabled"@,
    }
}

/// What a navigation link's `…_href` value is: the target, or the
/// do-nothing script when there is none.
pub open spec fn href_value_spec(href: Option<Seq<char>>) -> Seq<char> {
    match href {
        Some(h) => h,
        None => "javascript:;"@,
    }
}

/// Record one navigation link under its two keys: disabled marker and
/// target.
pub fn append_link(vals: &mut Globals, disabled_key: &str, href_key: &str, href: Option<String>)
    requires
        old(vals).wf(),
    ensures
        final(vals).wf(),
        final(vals).spec_values() =~= old(vals).spec_values().insert(
            disabled_key@,
            disabled_value_spec(match href {
                Some(h) => Some(h@),
                None => None,
            }),
        ).insert(href_key@, href_value_spec(match href {
            Some(h) => Some(h@),
            None => None,
        })),
        final(vals).spec_js_links() == old(vals).spec_js_links(),
        final(vals).spec_css_links() == old(vals).spec_css_links(),
{
    match href {
        Some(h) => {
            vals.amend(disabled_key, "".to_owned());
            vals.amend(href_key, h);
        },
        None => {
            vals.amend(disabled_key, "disabled".to_owned());
            vals.amend(href_key, "javascript:;".to_owned());
        },
    }
}

/// The page path for a slug: `/c/` followed by it.
pub fn slug_href(slug: &str) -> (r: String)
    ensures
        r@ == "/c/"@ + slug@,
{
    crate::strutil::concat2("/c/", slug)
}

/// The first/last navigation target: the slug's page, unless it is the
/// page being shown (or there is none) — those links are disabled.
pub fn nav_endpoint_href(target: Option<String>, current: &str) -> (r: Option<String>)
    ensures
        match target {
            Some(t) => if t@ == current@ {
                r is None
            } else {
                r matches Some(h) && h@ == "/c/"@ + t@
            },
            None => r is None,
        },
{
    match target {
        Some(t) => {
            if crate::strutil::str_eq(t.as_str(), current) {
                None
            } else {
                Some(slug_href(t.as_str()))
            }
        },
        None => None,
    }
}

/// The values a comic page is rendered against.
///
/// `image_url` is the artifact URL, or empty when resizing failed;
/// `admin_controls` is the rendered admin panel, or `None` for an
/// ordinary visitor; the four slugs are the navigation targets, with
/// first/last disabled when they are the shown page itself.
#[verifier::rlimit(60)]
pub fn assemble_page_values(
    title: String,
    image_url: &str,
    admin_controls: Option<String>,
    first_slug: Option<String>,
    prev_slug: Option<String>,
    next_slug: Option<String>,
    last_slug: Option<String>,
    current_slug: &str,
) -> (r: Globals)
    ensures
        r.wf(),
        r.spec_js_links() == crate::globals::js_links_spec(),
        r.spec_css_links() == crate::globals::css_links_spec(),
        r.spec_values().contains_key("title"@) && r.spec_values()["title"@] == title@,
        r.spec_values().contains_key("file"@) && r.spec_values()["file"@] == "/ic/"@ + image_url@,
        r.spec_values().contains_key("width"@) && r.spec_values()["width"@] == ""@,
        r.spec_values().contains_key("height"@) && r.spec_values()["height"@] == ""@,
        r.spec_values().contains_key("admin_controls"@) && r.spec_values()["admin_controls"@]
            == (match admin_controls {
            Some(a) => a@,
            None => ""@,
        }),
        r.spec_values().contains_key("first_disabled"@) && r.spec_values().contains_key(
            "first_href"@,
        ) && (match first_slug {
            Some(f) => if f@ == current_slug@ {
                r.spec_values()["first_disabled"@] == "disabled"@ && r.spec_values()["first_href"@]
                    == "javascript:;"@
            } else {
                r.spec_values()["first_disabled"@] == ""@ && r.spec_values()["first_href"@]
                    == "/c/"@ + f@
            },
            None => r.spec_values()["first_disabled"@] == "disabled"@
                && r.spec_values()["first_href"@] == "javascript:;"@,
        }),
        r.spec_values().contains_key("prev_disabled"@) && r.spec_values().contains_key(
            "prev_href"@,
        ) && (match prev_slug {
            Some(p) => r.spec_values()["prev_disabled"@] == ""@ && r.spec_values()["prev_href"@]
                == "/c/"@ + p@,
            None => r.spec_values()["prev_disabled"@] == "disabled"@
                && r.spec_values()["prev_href"@] == "javascript:;"@,
        }),
        r.spec_values().contains_key("random_disabled"@) && r.spec_values()["random_disabled"@]
            == ""@,
        r.spec_values().contains_key("random_href"@) && r.spec_values()["random_href"@]
            == "/random"@,
        r.spec_values().contains_key("next_disabled"@) && r.spec_values().contains_key(
            "next_href"@,
        ) && (match next_slug {
            Some(nx) => r.spec_values()["next_disabled"@] == ""@ && r.spec_values()["next_href"@]
                == "/c/"@ + nx@,
            None => r.spec_values()["next_disabled"@] == "disabled"@
                && r.spec_values()["next_href"@] == "javascript:;"@,
        }),
        r.spec_values().contains_key("last_disabled"@) && r.spec_values().contains_key(
            "last_href"@,
        ) && (match last_slug {
            Some(l) => if l@ == current_slug@ {
                r.spec_values()["last_disabled"@] == "disabled"@ && r.spec_values()["last_href"@]
                    == "javascript:;"@
            } else {
                r.spec_values()["last_disabled"@] == ""@ && r.spec_values()["last_href"@] == "/c/"@
                    + l@
            },
            None => r.spec_values()["last_disabled"@] == "disabled"@
                && r.spec_values()["last_href"@] == "javascript:;"@,
        }),
{
    let file: String = crate::strutil::concat2("/ic/", image_url);
    let mut vals: Globals = Globals::new().with("title", title).with("file", file).with(
        "width",
        "".to_owned(),
    ).with("height", "".to_owned());
    match admin_controls {
        Some(a) => {
            vals.amend("admin_controls", a);
        },
        None => {
            vals.amend("admin_controls", String::new());
        },
    }
    let first_href: Option<String> = nav_endpoint_href(first_slug, current_slug);
    append_link(&mut vals, "first_disabled", "first_href", first_href);
    let prev_href: Option<String> = match prev_slug {
        Some(p) => Some(slug_href(p.as_str())),
        None => None,
    };
    append_link(&mut vals, "prev_disabled", "prev_href", prev_href);
    append_link(&mut vals, "random_disabled", "random_href", Some("/random".to_owned()));
    let next_href: Option<String> = match next_slug {
        Some(nx) => Some(slug_href(nx.as_str())),
        None => None,
    };
    append_link(&mut vals, "next_disabled", "next_href", next_href);
    let last_href: Option<String> = nav_endpoint_href(last_slug, current_slug);
    append_link(&mut vals, "last_disabled", "last_href", last_href);
    proof {
        broadcast use vstd::string::group_string_axioms;

        reveal_strlit("");
        assert(""@ =~= Seq::<char>::empty());
        reveal_strlit("title");
        reveal_strlit("file");
        reveal_strlit("width");
        reveal_strlit("height");
        reveal_strlit("admin_controls");
        reveal_strlit("first_disabled");
        reveal_strlit("first_href");
        reveal_strlit("prev_disabled");
        reveal_strlit("prev_href");
        reveal_strlit("random_disabled");
        reveal_strlit("random_href");
        reveal_strlit("next_disabled");
        reveal_strlit("next_href");
        reveal_strlit("last_disabled");
        reveal_strlit("last_href");
        assert("title"@.len() == 5 && "file"@.len() == 4 && "width"@.len() == 5 && "height"@.len()
            == 6 && "admin_controls"@.len() == 14 && "first_disabled"@.len() == 14
            && "first_href"@.len() == 10 && "prev_disabled"@.len() == 13 && "prev_href"@.len() == 9
            && "random_disabled"@.len() == 15 && "random_href"@.len() == 11
            && "next_disabled"@.len() == 13 && "next_href"@.len() == 9 && "last_disabled"@.len()
            == 13 && "last_href"@.len() == 9);
        assert("title"@[0] == 't' && "width"@[0] == 'w');
        assert("admin_controls"@[0] == 'a' && "first_disabled"@[0] == 'f');
        assert("prev_disabled"@[0] == 'p' && "next_disabled"@[0] == 'n' && "last_disabled"@[0]
            == 'l');
        assert("prev_href"@[0] == 'p' && "next_href"@[0] == 'n' && "last_href"@[0] == 'l');
        assert(vals.spec_values().contains_key("title"@) && vals.spec_values()["title"@]
            == title@);
        assert(vals.spec_values().contains_key("file"@) && vals.spec_values()["file"@] == "/ic/"@
            + image_url@);
        assert(vals.spec_values().contains_key("width"@) && vals.spec_values()["width"@] == ""@);
        assert(vals.spec_values().contains_key("height"@) && vals.spec_values()["height"@]
            == ""@);
        assert(vals.spec_values().contains_key("admin_controls"@)
            && vals.spec_values()["admin_controls"@] == (match admin_controls {
            Some(a) => a@,
            None => ""@,
        }));
        assert(vals.spec_values().contains_key("first_disabled"@)
            && vals.spec_values().contains_key("first_href"@));
        assert(match first_slug {
            Some(f) => if f@ == current_slug@ {
                vals.spec_values()["first_disabled"@] == "disabled"@
                    && vals.spec_values()["first_href"@] == "javascript:;"@
            } else {
                vals.spec_values()["first_disabled"@] == ""@
                    && vals.spec_values()["first_href"@] == "/c/"@ + f@
            },
            None => vals.spec_values()["first_disabled"@] == "disabled"@
                && vals.spec_values()["first_href"@] == "javascript:;"@,
        });
        assert(vals.spec_values().contains_key("prev_disabled"@)
            && vals.spec_values().contains_key("prev_href"@));
        assert(match prev_slug {
            Some(p) => vals.spec_values()["prev_disabled"@] == ""@
                && vals.spec_values()["prev_href"@] == "/c/"@ + p@,
            None => vals.spec_values()["prev_disabled"@] == "disabled"@
                && vals.spec_values()["prev_href"@] == "javascript:;"@,
        });
        assert(vals.spec_values().contains_key("random_disabled"@)
            && vals.spec_values()["random_disabled"@] == ""@);
        assert(vals.spec_values().contains_key("random_href"@)
            && vals.spec_values()["random_href"@] == "/random"@);
        assert(vals.spec_values().contains_key("next_disabled"@)
            && vals.spec_values().contains_key("next_href"@));
        assert(match next_slug {
            Some(nx) => vals.spec_values()["next_disabled"@] == ""@
                && vals.spec_values()["next_href"@] == "/c/"@ + nx@,
            None => vals.spec_values()["next_disabled"@] == "disabled"@
                && vals.spec_values()["next_href"@] == "javascript:;"@,
        });
        assert(vals.spec_values().contains_key("last_disabled"@)
            && vals.spec_values().contains_key("last_href"@));
        assert(match last_slug {
            Some(l) => if l@ == current_slug@ {
                vals.spec_values()["last_disabled"@] == "disabled"@
                    && vals.spec_values()["last_href"@] == "javascript:;"@
            } else {
                vals.spec_values()["last_disabled"@] == ""@ && vals.spec_values()["last_href"@]
                    == "/c/"@ + l@
            },
            None => vals.spec_values()["last_disabled"@] == "disabled"@
                && vals.spec_values()["last_href"@] == "javascript:;"@,
        });
    }
    vals
}

} // verus!
