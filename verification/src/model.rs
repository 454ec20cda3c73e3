//! The mathematical model of a builder configuration and of the document it
//! renders to.
//!
//! A configuration is modelled by [`Model`]: each singleton field holds the
//! already-rendered fragment (or `None`), each sequence field holds the
//! rendered fragments in insertion order, and `has_async_style` records
//! whether the async-style polyfill script has been injected. Every
//! configuration operation of [`crate::Builder`] is mirrored here by a spec
//! function on `Model`, and [`render`] states exactly which string
//! [`crate::Builder::build`] produces.

use vstd::prelude::*;

verus! {

/// The model of one builder configuration.
#[verifier::ext_equal]
pub ghost struct Model {
    /// The document language tag (raw, not a rendered fragment).
    pub lang: Seq<char>,
    /// The rendered `<title>` fragment, if one was set.
    pub title: Option<Seq<char>>,
    /// The rendered description meta fragment, if one was set.
    pub desc: Option<Seq<char>>,
    /// The rendered theme-color meta fragment, if one was set.
    pub color: Option<Seq<char>>,
    /// The rendered favicon link fragment, if one was set.
    pub favicon: Option<Seq<char>>,
    /// The rendered manifest link fragment, if one was set.
    pub manifest: Option<Seq<char>>,
    /// The rendered script fragments, in insertion order.
    pub scripts: Seq<Seq<char>>,
    /// The rendered style fragments, in insertion order.
    pub styles: Seq<Seq<char>>,
    /// The rendered font-preload fragments, in insertion order.
    pub fonts: Seq<Seq<char>>,
    /// The raw body fragment, if one was set.
    pub body: Option<Seq<char>>,
    /// Whether the async-style polyfill script has already been injected.
    pub has_async_style: bool,
}

// ---------------------------------------------------------------------------
// Fixed boilerplate pieces.
// ---------------------------------------------------------------------------

/// The document-type declaration that every document begins with.
pub open spec fn doctype_s() -> Seq<char> {
    "<!DOCTYPE html>"@
}

/// The fixed character-set meta tag.
pub open spec fn charset_s() -> Seq<char> {
    "<meta charset=\"utf-8\">"@
}

/// The fixed viewport meta tag.
pub open spec fn viewport_s() -> Seq<char> {
    "<meta name=\"viewport\" content=\"width=device-width, initial-scale=1.0\">"@
}

/// The head-section open tag.
pub open spec fn head_open_s() -> Seq<char> {
    "<head>"@
}

/// The head-section close tag.
pub open spec fn head_close_s() -> Seq<char> {
    "</head>"@
}

/// The root-element close tag.
pub open spec fn html_close_s() -> Seq<char> {
    "</html>"@
}

/// The default language tag of a fresh configuration.
pub open spec fn default_lang() -> Seq<char> {
    "en-US"@
}

/// The text of the async-style polyfill script, letter for letter the
/// constant `css_rel_preload::CSS_REL_PRELOAD` that the trusted wrapper
/// [`crate::polyfill_text`] returns.
pub open spec fn polyfill() -> Seq<char> {
    r#"!function(n){"use strict";n.loadCSS||(n.loadCSS=function(){});var o=loadCSS.relpreload={};if(o.support=function(){var e;try{e=n.document.createElement("link").relList.supports("preload")}catch(t){e=!1}return function(){return e}}(),o.bindMediaToggle=function(t){var e=t.media||"all";function a(){t.media=e}t.addEventListener?t.addEventListener("load",a):t.attachEvent&&t.attachEvent("onload",a),setTimeout(function(){t.rel="stylesheet",t.media="only x"}),setTimeout(a,3e3)},o.poly=function(){if(!o.support())for(var t=n.document.getElementsByTagName("link"),e=0;e<t.length;e++){var a=t[e];"preload"!==a.rel||"style"!==a.getAttribute("as")||a.getAttribute("data-loadcss")||(a.setAttribute("data-loadcss",!0),o.bindMediaToggle(a))}},!o.support()){o.poly();var t=n.setInterval(o.poly,500);n.addEventListener?n.addEventListener("load",function(){o.poly(),n.clearInterval(t)}):n.attachEvent&&n.attachEvent("onload",function(){o.poly(),n.clearInterval(t)})}"undefined"!=typeof exports?exports.loadCSS=loadCSS:n.loadCSS=loadCSS}("undefined"!=typeof global?global:this);"#@
}

// ---------------------------------------------------------------------------
// Fragment templates: what each operation renders its argument to.
// ---------------------------------------------------------------------------

/// The root-element open tag carrying the language attribute.
pub open spec fn html_open_frag(lang: Seq<char>) -> Seq<char> {
    "<html lang=\""@ + lang + "\">"@
}

/// The `<title>` fragment.
pub open spec fn title_frag(t: Seq<char>) -> Seq<char> {
    "<title>"@ + t + "</title>"@
}

/// The description meta fragment.
pub open spec fn desc_frag(d: Seq<char>) -> Seq<char> {
    "<meta name=\"description\" content=\""@ + d + "\">"@
}

/// The theme-color meta fragment.
pub open spec fn theme_color_frag(c: Seq<char>) -> Seq<char> {
    "<meta name=\"theme-color\" content=\""@ + c + "\">"@
}

/// The deferred script fragment.
pub open spec fn script_frag(src: Seq<char>) -> Seq<char> {
    "<script src=\""@ + src + "\" defer></script>"@
}

/// The prefetch link fragment for a lazily loaded script.
pub open spec fn lazy_script_frag(src: Seq<char>) -> Seq<char> {
    "<link rel=\"prefetch\" href=\""@ + src + "\">"@
}

/// The render-blocking script fragment.
pub open spec fn blocking_script_frag(src: Seq<char>) -> Seq<char> {
    "<script src=\""@ + src + "\"></script>"@
}

/// The inline script fragment.
pub open spec fn inline_script_frag(src: Seq<char>) -> Seq<char> {
    "<script>"@ + src + "</script>"@
}

/// The async-preload style link fragment.
pub open spec fn style_frag(src: Seq<char>) -> Seq<char> {
    "<link rel=\"preload\" as=\"style\" href=\""@ + src
        + "\" onload=\"this.rel='stylesheet'\" onerror=\"this.rel='stylesheet'\">"@
}

/// The inline style fragment.
pub open spec fn inline_style_frag(src: Seq<char>) -> Seq<char> {
    "<style>"@ + src + "</style>"@
}

/// The render-blocking stylesheet link fragment.
pub open spec fn blocking_style_frag(src: Seq<char>) -> Seq<char> {
    "<link rel=\"stylesheet\" href=\""@ + src + "\">"@
}

/// The favicon link fragment.
pub open spec fn favicon_frag(src: Seq<char>) -> Seq<char> {
    "<link rel=\"icon\" type=\"image/x-icon\" href=\""@ + src + "\">"@
}

/// The manifest link fragment.
pub open spec fn manifest_frag(src: Seq<char>) -> Seq<char> {
    "<link rel=\"manifest\" href=\""@ + src + "\">"@
}

/// The font-preload link fragment.
pub open spec fn font_frag(src: Seq<char>) -> Seq<char> {
    "<link rel=\"preload\" as=\"font\" crossorigin href=\""@ + src + "\">"@
}

// ---------------------------------------------------------------------------
// Concatenation helpers.
// ---------------------------------------------------------------------------

/// What an optional slot contributes to the output: its fragment if set,
/// nothing otherwise.
pub open spec fn opt_frag(o: Option<Seq<char>>) -> Seq<char> {
    match o {
        Option::None => Seq::empty(),
        Option::Some(f) => f,
    }
}

/// The concatenation of a sequence of fragments, in order.
pub open spec fn cat(ss: Seq<Seq<char>>) -> Seq<char>
    decreases ss.len(),
{
    if ss.len() == 0 {
        Seq::empty()
    } else {
        cat(ss.drop_last()) + ss.last()
    }
}

/// Taking one more fragment extends the concatenation of the prefix by
/// exactly that fragment.
pub proof fn lemma_cat_take_step(ss: Seq<Seq<char>>, i: int)
    requires
        0 <= i < ss.len(),
    ensures
        cat(ss.take(i + 1)) == cat(ss.take(i)) + ss[i],
{
    assert(ss.take(i + 1).drop_last() =~= ss.take(i));
    assert(ss.take(i + 1).last() == ss[i]);
}

/// Concatenation distributes over appending fragment sequences.
pub proof fn lemma_cat_app(a: Seq<Seq<char>>, b: Seq<Seq<char>>)
    ensures
        cat(a + b) == cat(a) + cat(b),
    decreases b.len(),
{
    if b.len() == 0 {
        assert(a + b =~= a);
        assert(cat(a) + cat(b) =~= cat(a));
    } else {
        lemma_cat_app(a, b.drop_last());
        assert((a + b).drop_last() =~= a + b.drop_last());
        assert((a + b).last() == b.last());
        assert(cat(a) + cat(b) =~= cat(a) + cat(b.drop_last()) + b.last());
    }
}

// ---------------------------------------------------------------------------
// Configuration transitions: one spec function per builder operation.
// ---------------------------------------------------------------------------

/// The model of a fresh configuration: everything empty, the language at its
/// default, no polyfill injected.
pub open spec fn init_model() -> Model {
    Model {
        lang: default_lang(),
        title: Option::None,
        desc: Option::None,
        color: Option::None,
        favicon: Option::None,
        manifest: Option::None,
        scripts: Seq::empty(),
        styles: Seq::empty(),
        fonts: Seq::empty(),
        body: Option::None,
        has_async_style: false,
    }
}

/// Overwrite the language tag.
pub open spec fn with_lang(m: Model, lang: Seq<char>) -> Model {
    Model { lang, ..m }
}

/// Overwrite the title slot with the rendered fragment for `t`.
pub open spec fn with_title(m: Model, t: Seq<char>) -> Model {
    Model { title: Option::Some(title_frag(t)), ..m }
}

/// Overwrite the description slot with the rendered fragment for `d`.
pub open spec fn with_desc(m: Model, d: Seq<char>) -> Model {
    Model { desc: Option::Some(desc_frag(d)), ..m }
}

/// Overwrite the theme-color slot with the rendered fragment for `c`.
pub open spec fn with_theme_color(m: Model, c: Seq<char>) -> Model {
    Model { color: Option::Some(theme_color_frag(c)), ..m }
}

/// Overwrite the favicon slot with the rendered fragment for `src`.
pub open spec fn with_favicon(m: Model, src: Seq<char>) -> Model {
    Model { favicon: Option::Some(favicon_frag(src)), ..m }
}

/// Overwrite the manifest slot with the rendered fragment for `src`.
pub open spec fn with_manifest(m: Model, src: Seq<char>) -> Model {
    Model { manifest: Option::Some(manifest_frag(src)), ..m }
}

/// Overwrite the body slot with the raw fragment `b`.
pub open spec fn with_body(m: Model, b: Seq<char>) -> Model {
    Model { body: Option::Some(b), ..m }
}

/// Append one rendered fragment to the scripts sequence.
pub open spec fn push_script(m: Model, f: Seq<char>) -> Model {
    Model { scripts: m.scripts.push(f), ..m }
}

/// Append one rendered fragment to the styles sequence.
pub open spec fn push_style(m: Model, f: Seq<char>) -> Model {
    Model { styles: m.styles.push(f), ..m }
}

/// Append one rendered fragment to the fonts sequence.
pub open spec fn push_font(m: Model, f: Seq<char>) -> Model {
    Model { fonts: m.fonts.push(f), ..m }
}

/// Append a sequence of already-rendered fragments to the scripts, in order:
/// the model of a run of script-adding calls.
pub open spec fn add_scripts(m: Model, fs: Seq<Seq<char>>) -> Model
    decreases fs.len(),
{
    if fs.len() == 0 {
        m
    } else {
        push_script(add_scripts(m, fs.drop_last()), fs.last())
    }
}

/// Add an async-preload style: append its link fragment to the styles, and,
/// on the first such call only, append the polyfill inline script to the
/// scripts and set the injection flag.
pub open spec fn add_async_style(m: Model, src: Seq<char>) -> Model {
    let m1 = push_style(m, style_frag(src));
    if m1.has_async_style {
        m1
    } else {
        Model { has_async_style: true, ..push_script(m1, inline_script_frag(polyfill())) }
    }
}

// ---------------------------------------------------------------------------
// Rendering: the fixed slot order of the output document.
// ---------------------------------------------------------------------------

/// The fixed boilerplate prefix: doctype, root open tag with the language,
/// head open tag, the character-set meta tag and the viewport meta tag, in
/// that order. Within this prefix the character-set and viewport tags each
/// occur exactly once.
pub open spec fn boilerplate(lang: Seq<char>) -> Seq<char> {
    doctype_s() + html_open_frag(lang) + head_open_s() + charset_s() + viewport_s()
}

/// Everything of the output that precedes the title slot.
pub open spec fn pre_title(m: Model) -> Seq<char> {
    boilerplate(m.lang)
}

/// Everything of the output that precedes the description slot.
pub open spec fn pre_desc(m: Model) -> Seq<char> {
    pre_title(m) + opt_frag(m.title)
}

/// Everything of the output that precedes the scripts.
pub open spec fn pre_scripts(m: Model) -> Seq<char> {
    pre_desc(m) + opt_frag(m.desc)
}

/// Everything of the output that precedes the styles.
pub open spec fn pre_styles(m: Model) -> Seq<char> {
    pre_scripts(m) + cat(m.scripts)
}

/// Everything of the output that precedes the fonts.
pub open spec fn pre_fonts(m: Model) -> Seq<char> {
    pre_styles(m) + cat(m.styles)
}

/// Everything of the output that precedes the manifest slot.
pub open spec fn pre_manifest(m: Model) -> Seq<char> {
    pre_fonts(m) + cat(m.fonts)
}

/// Everything of the output that precedes the theme-color slot.
pub open spec fn pre_color(m: Model) -> Seq<char> {
    pre_manifest(m) + opt_frag(m.manifest)
}

/// Everything of the output that precedes the favicon slot.
pub open spec fn pre_favicon(m: Model) -> Seq<char> {
    pre_color(m) + opt_frag(m.color)
}

/// Everything of the output up to and including the last head slot.
pub open spec fn head_content(m: Model) -> Seq<char> {
    pre_favicon(m) + opt_frag(m.favicon)
}

/// Everything of the output that precedes the body slot.
pub open spec fn pre_body(m: Model) -> Seq<char> {
    head_content(m) + head_close_s()
}

/// Everything of the output that follows the favicon slot.
pub open spec fn after_favicon(m: Model) -> Seq<char> {
    head_close_s() + opt_frag(m.body) + html_close_s()
}

/// Everything of the output that follows the theme-color slot.
pub open spec fn after_color(m: Model) -> Seq<char> {
    opt_frag(m.favicon) + after_favicon(m)
}

/// Everything of the output that follows the manifest slot.
pub open spec fn after_manifest(m: Model) -> Seq<char> {
    opt_frag(m.color) + after_color(m)
}

/// Everything of the output that follows the description slot.
pub open spec fn after_desc(m: Model) -> Seq<char> {
    cat(m.scripts) + cat(m.styles) + cat(m.fonts) + opt_frag(m.manifest) + after_manifest(m)
}

/// Everything of the output that follows the title slot.
pub open spec fn after_title(m: Model) -> Seq<char> {
    opt_frag(m.desc) + after_desc(m)
}

/// The complete document that a configuration renders to: the boilerplate,
/// the optional head slots and the three fragment sequences in their fixed
/// order, the head close tag, the optional body, and the root close tag,
/// with nothing inserted between fragments.
pub open spec fn render(m: Model) -> Seq<char> {
    pre_body(m) + opt_frag(m.body) + html_close_s()
}

} // verus!
