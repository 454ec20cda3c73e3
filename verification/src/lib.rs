//! A builder for performant HTML index documents.
//!
//! The builder collects optional, pre-rendered document fragments (scripts,
//! styles, fonts, metadata, a body) through a fluent interface and, on
//! [`Builder::build`], concatenates fixed boilerplate with the accumulated
//! fragments in a fixed slot order into a single document string.
//!
//! Caller-supplied strings are interpolated verbatim: no escaping or
//! sanitization is performed, so untrusted content must be pre-escaped by
//! the caller.
//!
//! ```
//! let res = html_index::Builder::new()
//!     .raw_body("<body>hello world</body>")
//!     .script("/bundle.js")
//!     .style("/bundle.css")
//!     .build();
//! println!("{}", res);
//! ```

use vstd::prelude::*;

pub mod laws;
pub mod model;

verus! {

use crate::model::{
    add_async_style, blocking_script_frag, blocking_style_frag, cat, favicon_frag, font_frag,
    init_model, inline_script_frag, inline_style_frag, lazy_script_frag, lemma_cat_take_step,
    polyfill, pre_body, pre_color, pre_desc, pre_favicon, pre_fonts, pre_manifest, pre_scripts,
    pre_styles, pre_title, push_font, push_script, push_style, render, script_frag, with_body,
    with_desc, with_favicon, with_lang, with_manifest, with_theme_color, with_title, head_content,
    Model,
};
use vstd::string::StringExecFns;

/// Create a new `Builder` instance.
pub fn new() -> (r: Builder)
    ensures
        r@ == init_model(),
{
    Builder::new()
}

/// Create a new HTML builder.
#[derive(Debug, Clone)]
pub struct Builder {
    color: Option<String>,
    desc: Option<String>,
    lang: String,
    favicon: Option<String>,
    fonts: Vec<String>,
    manifest: Option<String>,
    scripts: Vec<String>,
    styles: Vec<String>,
    title: Option<String>,
    body: Option<String>,
    has_async_style: bool,
}

impl View for Builder {
    type V = Model;

    closed spec fn view(&self) -> Model {
        Model {
            lang: self.lang@,
            title: self.title.deep_view(),
            desc: self.desc.deep_view(),
            color: self.color.deep_view(),
            favicon: self.favicon.deep_view(),
            manifest: self.manifest.deep_view(),
            scripts: self.scripts.deep_view(),
            styles: self.styles.deep_view(),
            fonts: self.fonts.deep_view(),
            body: self.body.deep_view(),
            has_async_style: self.has_async_style,
        }
    }
}

/// Relies on `css_rel_preload::CSS_REL_PRELOAD`: a fixed constant script
/// text, restated letter for letter by [`model::polyfill`].
#[verifier::external_body]
fn polyfill_text() -> (r: &'static str)
    ensures
        r@ == polyfill(),
{
    css_rel_preload::CSS_REL_PRELOAD
}

impl Builder {
    /// Create a new, empty configuration with the language at its default.
    pub fn new() -> (r: Self)
        ensures
            r@ == init_model(),
    {
        let r = Builder {
            color: None,
            desc: None,
            lang: "en-US".to_owned(),
            favicon: None,
            fonts: Vec::new(),
            manifest: None,
            scripts: Vec::new(),
            styles: Vec::new(),
            title: None,
            body: None,
            has_async_style: false,
        };
        proof {
            assert(r@ =~= init_model());
        }
        r
    }

    /// Add a body to the document. The body must include `<body></body>` tags.
    pub fn raw_body(self, body: &str) -> (r: Self)
        ensures
            r@ == with_body(self@, body@),
    {
        let mut b = self;
        b.body = Some(body.to_owned());
        proof {
            assert(b@ =~= with_body(self@, body@));
        }
        b
    }

    /// Set the document language.
    pub fn lang(self, lang: &str) -> (r: Self)
        ensures
            r@ == with_lang(self@, lang@),
    {
        let mut b = self;
        b.lang = lang.to_owned();
        proof {
            assert(b@ =~= with_lang(self@, lang@));
        }
        b
    }

    /// Add a `<meta name="description">` tag.
    pub fn description(self, desc: &str) -> (r: Self)
        ensures
            r@ == with_desc(self@, desc@),
    {
        let mut val = "<meta name=\"description\" content=\"".to_owned();
        val.append(desc);
        val.append("\">");
        let mut b = self;
        b.desc = Some(val);
        proof {
            assert(b@ =~= with_desc(self@, desc@));
        }
        b
    }

    /// Add a `<meta name="theme-color">` tag.
    pub fn theme_color(self, color: &str) -> (r: Self)
        ensures
            r@ == with_theme_color(self@, color@),
    {
        let mut val = "<meta name=\"theme-color\" content=\"".to_owned();
        val.append(color);
        val.append("\">");
        let mut b = self;
        b.color = Some(val);
        proof {
            assert(b@ =~= with_theme_color(self@, color@));
        }
        b
    }

    /// Add a `<title>` tag.
    pub fn title(self, title: &str) -> (r: Self)
        ensures
            r@ == with_title(self@, title@),
    {
        let mut val = "<title>".to_owned();
        val.append(title);
        val.append("</title>");
        let mut b = self;
        b.title = Some(val);
        proof {
            assert(b@ =~= with_title(self@, title@));
        }
        b
    }

    /// Add a `<script defer>` tag. This is ideal for loading scripts that are
    /// important for the main application, but shouldn't interfere with the
    /// initial rendering.
    pub fn script(self, src: &str) -> (r: Self)
        ensures
            r@ == push_script(self@, script_frag(src@)),
    {
        let mut val = "<script src=\"".to_owned();
        val.append(src);
        val.append("\" defer></script>");
        let mut b = self;
        b.scripts.push(val);
        proof {
            assert(b@ =~= push_script(self@, script_frag(src@)));
        }
        b
    }

    /// Add a `<link rel="prefetch">` tag. This is ideal for loading scripts in
    /// the background after the main application has loaded.
    pub fn lazy_script(self, src: &str) -> (r: Self)
        ensures
            r@ == push_script(self@, lazy_script_frag(src@)),
    {
        let mut val = "<link rel=\"prefetch\" href=\"".to_owned();
        val.append(src);
        val.append("\">");
        let mut b = self;
        b.scripts.push(val);
        proof {
            assert(b@ =~= push_script(self@, lazy_script_frag(src@)));
        }
        b
    }

    /// Add a `<script>` tag with a source path. This is ideal for loading
    /// scripts that should be loaded before any rendering can start.
    pub fn blocking_script(self, src: &str) -> (r: Self)
        ensures
            r@ == push_script(self@, blocking_script_frag(src@)),
    {
        let mut val = "<script src=\"".to_owned();
        val.append(src);
        val.append("\"></script>");
        let mut b = self;
        b.scripts.push(val);
        proof {
            assert(b@ =~= push_script(self@, blocking_script_frag(src@)));
        }
        b
    }

    /// Add a `<script></script>` tag around literal script text. This is
    /// ideal for loading custom scripts that are essential for loading.
    pub fn inline_script(self, src: &str) -> (r: Self)
        ensures
            r@ == push_script(self@, inline_script_frag(src@)),
    {
        let mut val = "<script>".to_owned();
        val.append(src);
        val.append("</script>");
        let mut b = self;
        b.scripts.push(val);
        proof {
            assert(b@ =~= push_script(self@, inline_script_frag(src@)));
        }
        b
    }

    /// Add a non-blocking `<link as="style">` tag. This is ideal for including
    /// styles that aren't essential for an initial render pass.
    ///
    /// The first call also appends a fixed polyfill inline script to the
    /// scripts sequence, so that the preload technique works in browsers
    /// lacking native support; repeat calls do not re-inject it.
    ///
    /// `onerror` exists because of a bug in firefox. See
    /// https://github.com/filamentgroup/loadCSS/issues/246 for more details
    pub fn style(self, src: &str) -> (r: Self)
        ensures
            r@ == add_async_style(self@, src@),
    {
        let mut val = "<link rel=\"preload\" as=\"style\" href=\"".to_owned();
        val.append(src);
        val.append("\" onload=\"this.rel='stylesheet'\" onerror=\"this.rel='stylesheet'\">");
        let mut b = self;
        b.styles.push(val);
        if !b.has_async_style {
            b = b.inline_script(polyfill_text());
            b.has_async_style = true;
        }
        proof {
            assert(b@ =~= add_async_style(self@, src@));
        }
        b
    }

    /// Add an inline `<style>` tag. This is ideal for including styles that
    /// should be available for an initial render pass.
    pub fn inline_style(self, src: &str) -> (r: Self)
        ensures
            r@ == push_style(self@, inline_style_frag(src@)),
    {
        let mut val = "<style>".to_owned();
        val.append(src);
        val.append("</style>");
        let mut b = self;
        b.styles.push(val);
        proof {
            assert(b@ =~= push_style(self@, inline_style_frag(src@)));
        }
        b
    }

    /// Add a blocking `<link rel="stylesheet">` tag. This is ideal for
    /// externally loading styles that should be loaded before any rendering
    /// can be initialized.
    pub fn blocking_style(self, src: &str) -> (r: Self)
        ensures
            r@ == push_style(self@, blocking_style_frag(src@)),
    {
        let mut val = "<link rel=\"stylesheet\" href=\"".to_owned();
        val.append(src);
        val.append("\">");
        let mut b = self;
        b.styles.push(val);
        proof {
            assert(b@ =~= push_style(self@, blocking_style_frag(src@)));
        }
        b
    }

    /// Add a favicon.
    pub fn favicon(self, src: &str) -> (r: Self)
        ensures
            r@ == with_favicon(self@, src@),
    {
        let mut val = "<link rel=\"icon\" type=\"image/x-icon\" href=\"".to_owned();
        val.append(src);
        val.append("\">");
        let mut b = self;
        b.favicon = Some(val);
        proof {
            assert(b@ =~= with_favicon(self@, src@));
        }
        b
    }

    /// Add a web-app manifest link.
    pub fn manifest(self, src: &str) -> (r: Self)
        ensures
            r@ == with_manifest(self@, src@),
    {
        let mut val = "<link rel=\"manifest\" href=\"".to_owned();
        val.append(src);
        val.append("\">");
        let mut b = self;
        b.manifest = Some(val);
        proof {
            assert(b@ =~= with_manifest(self@, src@));
        }
        b
    }

    /// Add a `<link as="font">` tag.
    pub fn font(self, src: &str) -> (r: Self)
        ensures
            r@ == push_font(self@, font_frag(src@)),
    {
        let mut val = "<link rel=\"preload\" as=\"font\" crossorigin href=\"".to_owned();
        val.append(src);
        val.append("\">");
        let mut b = self;
        b.fonts.push(val);
        proof {
            assert(b@ =~= push_font(self@, font_frag(src@)));
        }
        b
    }

    /// Create an HTML document: the fixed boilerplate and the accumulated
    /// fragments, concatenated in the fixed slot order with nothing between
    /// them. Consumes the configuration.
    pub fn build(self) -> (r: String)
        ensures
            r@ == render(self@),
    {
        let ghost m = self@;
        let mut html: String = "<!DOCTYPE html>".to_owned();
        html.append("<html lang=\"");
        html.append(self.lang.as_str());
        html.append("\">");
        html.append("<head>");
        html.append("<meta charset=\"utf-8\">");
        html.append("<meta name=\"viewport\" content=\"width=device-width, initial-scale=1.0\">");
        proof {
            assert(html@ =~= pre_title(m));
        }
        if let Some(title) = &self.title {
            html.append(title.as_str());
        }
        proof {
            assert(html@ =~= pre_desc(m));
        }
        if let Some(desc) = &self.desc {
            html.append(desc.as_str());
        }
        proof {
            assert(m.scripts.take(0) =~= Seq::<Seq<char>>::empty());
            assert(html@ =~= pre_scripts(m) + cat(m.scripts.take(0)));
        }
        let mut i: usize = 0;
        while i < self.scripts.len()
            invariant
                i <= self.scripts.len(),
                m == self@,
                html@ == pre_scripts(m) + cat(m.scripts.take(i as int)),
            decreases self.scripts.len() - i,
        {
            html.append(self.scripts[i].as_str());
            proof {
                lemma_cat_take_step(m.scripts, i as int);
                assert(html@ =~= pre_scripts(m) + cat(m.scripts.take(i + 1)));
            }
            i = i + 1;
        }
        proof {
            assert(m.scripts.take(self.scripts.len() as int) =~= m.scripts);
            assert(m.styles.take(0) =~= Seq::<Seq<char>>::empty());
            assert(html@ =~= pre_styles(m) + cat(m.styles.take(0)));
        }
        let mut j: usize = 0;
        while j < self.styles.len()
            invariant
                j <= self.styles.len(),
                m == self@,
                html@ == pre_styles(m) + cat(m.styles.take(j as int)),
            decreases self.styles.len() - j,
        {
            html.append(self.styles[j].as_str());
            proof {
                lemma_cat_take_step(m.styles, j as int);
                assert(html@ =~= pre_styles(m) + cat(m.styles.take(j + 1)));
            }
            j = j + 1;
        }
        proof {
            assert(m.styles.take(self.styles.len() as int) =~= m.styles);
            assert(m.fonts.take(0) =~= Seq::<Seq<char>>::empty());
            assert(html@ =~= pre_fonts(m) + cat(m.fonts.take(0)));
        }
        let mut k: usize = 0;
        while k < self.fonts.len()
            invariant
                k <= self.fonts.len(),
                m == self@,
                html@ == pre_fonts(m) + cat(m.fonts.take(k as int)),
            decreases self.fonts.len() - k,
        {
            html.append(self.fonts[k].as_str());
            proof {
                lemma_cat_take_step(m.fonts, k as int);
                assert(html@ =~= pre_fonts(m) + cat(m.fonts.take(k + 1)));
            }
            k = k + 1;
        }
        proof {
            assert(m.fonts.take(self.fonts.len() as int) =~= m.fonts);
            assert(html@ =~= pre_manifest(m));
        }
        if let Some(manifest) = &self.manifest {
            html.append(manifest.as_str());
        }
        proof {
            assert(html@ =~= pre_color(m));
        }
        if let Some(color) = &self.color {
            html.append(color.as_str());
        }
        proof {
            assert(html@ =~= pre_favicon(m));
        }
        if let Some(favicon) = &self.favicon {
            html.append(favicon.as_str());
        }
        proof {
            assert(html@ =~= head_content(m));
        }
        html.append("</head>");
        if let Some(body) = &self.body {
            html.append(body.as_str());
        }
        html.append("</html>");
        proof {
            assert(html@ =~= render(m));
        }
        html
    }
}

} // verus!
