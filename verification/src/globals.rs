//! The per-page value store handed to the template engine: named string
//! values, plus the prebuilt HTML for the script and stylesheet links.

use vstd::prelude::*;
use vstd::string::StringExecFns;

use crate::kvlist::AssocList;

verus! {

/// The HTML for one script link.
pub open spec fn script_tag_spec(link: Seq<char>) -> Seq<char> {
    "<script src=\""@ + link + "\"></script>"@
}

/// The HTML for one stylesheet link.
pub open spec fn css_tag_spec(link: Seq<char>) -> Seq<char> {
    "<link rel=\"stylesheet\" type=\"text/css\" href=\""@ + link + "\" />"@
}

/// The script links every page carries.
pub open spec fn js_links_spec() -> Seq<char> {
    script_tag_spec("/js/compiled/require.js"@) + script_tag_spec("/js/config.js"@)
}

/// The stylesheet links every page carries.
pub open spec fn css_links_spec() -> Seq<char> {
    css_tag_spec("/css/compiled/dev.css"@) + css_tag_spec("/css/style.css"@) + css_tag_spec(
        "/css/comics.css"@,
    )
}

/// Named values for one page, plus the link HTML.
pub struct Globals {
    js_links: String,
    css_links: String,
    values: AssocList<String>,
}

impl Globals {
    /// The named values, as a map.
    pub closed spec fn spec_values(&self) -> Map<Seq<char>, Seq<char>> {
        self.values.view_map().map_values(|v: String| v@)
    }

    /// The prebuilt script-link HTML.
    pub closed spec fn spec_js_links(&self) -> Seq<char> {
        self.js_links@
    }

    /// The prebuilt stylesheet-link HTML.
    pub closed spec fn spec_css_links(&self) -> Seq<char> {
        self.css_links@
    }

    /// Well-formed: each name held at most once.
    pub closed spec fn wf(&self) -> bool {
        self.values.wf()
    }

    /// A store with no values and the standard link HTML.
    pub fn new() -> (r: Globals)
        ensures
            r.wf(),
            r.spec_values() =~= Map::<Seq<char>, Seq<char>>::empty(),
            r.spec_js_links() == js_links_spec(),
            r.spec_css_links() == css_links_spec(),
    {
        let mut js: String = String::new();
        js.append("<script src=\"");
        js.append("/js/compiled/require.js");
        js.append("\"></script>");
        js.append("<script src=\"");
        js.append("/js/config.js");
        js.append("\"></script>");
        let mut css: String = String::new();
        css.append("<link rel=\"stylesheet\" type=\"text/css\" href=\"");
        css.append("/css/compiled/dev.css");
        css.append("\" />");
        css.append("<link rel=\"stylesheet\" type=\"text/css\" href=\"");
        css.append("/css/style.css");
        css.append("\" />");
        css.append("<link rel=\"stylesheet\" type=\"text/css\" href=\"");
        css.append("/css/comics.css");
        css.append("\" />");
        let g = Globals { js_links: js, css_links: css, values: AssocList::new() };
        proof {
            assert(g.spec_js_links() =~= js_links_spec());
            assert(g.spec_css_links() =~= css_links_spec());
            assert(g.spec_values() =~= Map::<Seq<char>, Seq<char>>::empty());
        }
        g
    }

    /// `self`, with `value` recorded under `key`.
    pub fn with(self, key: &str, value: String) -> (r: Globals)
        requires
            self.wf(),
        ensures
            r.wf(),
            r.spec_values() =~= self.spec_values().insert(key@, value@),
            r.spec_js_links() == self.spec_js_links(),
            r.spec_css_links() == self.spec_css_links(),
    {
        let mut g = self;
        g.amend(key, value);
        g
    }

    /// Record `value` under `key`, replacing any earlier value.
    pub fn amend(&mut self, key: &str, value: String)
        requires
            old(self).wf(),
        ensures
            final(self).wf(),
            final(self).spec_values() =~= old(self).spec_values().insert(key@, value@),
            final(self).spec_js_links() == old(self).spec_js_links(),
            final(self).spec_css_links() == old(self).spec_css_links(),
    {
        self.values.set(key, value);
    }

    /// The value recorded under `key`, if any.
    pub fn get(&self, key: &str) -> (r: Option<&str>)
        requires
            self.wf(),
        ensures
            match r {
                Some(v) => self.spec_values().contains_key(key@) && v@ == self.spec_values()[key@],
                None => !self.spec_values().contains_key(key@),
            },
    {
        match self.values.get(key) {
            Some(v) => Some(v.as_str()),
            None => None,
        }
    }

    /// The prebuilt script-link HTML.
    pub fn get_js_links(&self) -> (r: &str)
        ensures
            r@ == self.spec_js_links(),
    {
        self.js_links.as_str()
    }

    /// The prebuilt stylesheet-link HTML.
    pub fn get_css_links(&self) -> (r: &str)
        ensures
            r@ == self.spec_css_links(),
    {
        self.css_links.as_str()
    }
}

} // verus!
