//! Proved laws of the builder.
//!
//! Each lemma states a property of the configuration model and of
//! [`crate::model::render`]; together with the contracts of the
//! [`crate::Builder`] methods (each of which pins its result's model to the
//! corresponding transition function) they carry over to every sequence of
//! builder calls.

use vstd::prelude::*;

verus! {

use crate::model::{
    add_async_style, add_scripts, after_color, after_desc, after_favicon, after_manifest,
    after_title, boilerplate, cat, desc_frag, doctype_s, favicon_frag, head_close_s, head_content,
    html_close_s, inline_script_frag, lemma_cat_app, manifest_frag, opt_frag, polyfill, pre_body,
    pre_color, pre_desc, pre_favicon, pre_fonts, pre_manifest, pre_scripts, pre_styles, pre_title,
    render, style_frag, theme_color_frag, title_frag, with_body, with_desc, with_favicon,
    with_lang, with_manifest, with_theme_color, with_title, Model,
};

/// Boilerplate invariance: whatever is configured, the rendered document
/// begins with the fixed document-type declaration, and its prefix through
/// the viewport tag is the fixed boilerplate (which holds exactly one
/// character-set meta tag and one viewport meta tag), varying only in the
/// language attribute.
pub proof fn lemma_boilerplate_prefix(m: Model)
    ensures
        render(m).take(doctype_s().len() as int) == doctype_s(),
        render(m).take(boilerplate(m.lang).len() as int) == boilerplate(m.lang),
{
    assert(render(m).take(doctype_s().len() as int) =~= doctype_s());
    assert(render(m).take(boilerplate(m.lang).len() as int) =~= boilerplate(m.lang));
}

/// Order preservation: a run of script-adding calls appends exactly its
/// rendered fragments, in call order, and the scripts portion of the output
/// is the old portion followed by those fragments in the same order.
pub proof fn lemma_script_order(m: Model, fs: Seq<Seq<char>>)
    ensures
        add_scripts(m, fs) == (Model { scripts: m.scripts + fs, ..m }),
        cat(add_scripts(m, fs).scripts) == cat(m.scripts) + cat(fs),
    decreases fs.len(),
{
    if fs.len() == 0 {
        assert(m.scripts + fs =~= m.scripts);
        assert(add_scripts(m, fs) =~= (Model { scripts: m.scripts + fs, ..m }));
    } else {
        lemma_script_order(m, fs.drop_last());
        assert((m.scripts + fs.drop_last()).push(fs.last()) =~= m.scripts + fs);
        assert(add_scripts(m, fs) =~= (Model { scripts: m.scripts + fs, ..m }));
    }
    lemma_cat_app(m.scripts, fs);
}

/// Concatenation of fragments is associative.
proof fn lemma_assoc(a: Seq<char>, b: Seq<char>, c: Seq<char>)
    ensures
        (a + b) + c == a + (b + c),
{
    assert((a + b) + c =~= a + (b + c));
}

/// The rendered document factors at the title slot: the part before it
/// depends only on the language, the part after it only on the remaining
/// fields.
pub proof fn lemma_render_split(m: Model)
    ensures
        render(m) == pre_title(m) + (opt_frag(m.title) + after_title(m)),
        render(m) == pre_desc(m) + (opt_frag(m.desc) + after_desc(m)),
{
    let hc = head_content(m);
    let hcl = head_close_s();
    let ob = opt_frag(m.body);
    let cl = html_close_s();
    assert(render(m) == ((hc + hcl) + ob) + cl);
    lemma_assoc(hc, hcl, ob);
    lemma_assoc(hc, hcl + ob, cl);
    assert(render(m) == hc + after_favicon(m));
    lemma_assoc(pre_favicon(m), opt_frag(m.favicon), after_favicon(m));
    assert(render(m) == pre_favicon(m) + after_color(m));
    lemma_assoc(pre_color(m), opt_frag(m.color), after_color(m));
    assert(render(m) == pre_color(m) + after_manifest(m));
    let t0 = opt_frag(m.manifest) + after_manifest(m);
    lemma_assoc(pre_manifest(m), opt_frag(m.manifest), after_manifest(m));
    assert(render(m) == pre_manifest(m) + t0);
    lemma_assoc(pre_fonts(m), cat(m.fonts), t0);
    assert(render(m) == pre_fonts(m) + (cat(m.fonts) + t0));
    lemma_assoc(pre_styles(m), cat(m.styles), cat(m.fonts) + t0);
    assert(render(m) == pre_styles(m) + (cat(m.styles) + (cat(m.fonts) + t0)));
    lemma_assoc(pre_scripts(m), cat(m.scripts), cat(m.styles) + (cat(m.fonts) + t0));
    assert(after_desc(m) =~= cat(m.scripts) + (cat(m.styles) + (cat(m.fonts) + t0)));
    assert(render(m) == pre_scripts(m) + after_desc(m));
    lemma_assoc(pre_desc(m), opt_frag(m.desc), after_desc(m));
    assert(render(m) == pre_desc(m) + after_title(m));
    lemma_assoc(pre_title(m), opt_frag(m.title), after_title(m));
}

/// Optional-field omission, title: with no title set, nothing stands in the
/// title slot of the output; setting one inserts exactly its rendered
/// fragment there and changes nothing else.
pub proof fn lemma_title_omitted(m: Model, t: Seq<char>)
    requires
        m.title is None,
    ensures
        render(m) == pre_title(m) + after_title(m),
        render(with_title(m, t)) == pre_title(m) + title_frag(t) + after_title(m),
{
    lemma_render_split(m);
    assert(Seq::<char>::empty() + after_title(m) =~= after_title(m));
    let w = with_title(m, t);
    lemma_render_split(w);
    assert(pre_title(w) == pre_title(m));
    assert(after_title(w) == after_title(m));
    lemma_assoc(pre_title(m), title_frag(t), after_title(m));
}

/// Optional-field omission, description: as for the title, at its own slot.
pub proof fn lemma_desc_omitted(m: Model, d: Seq<char>)
    requires
        m.desc is None,
    ensures
        render(m) == pre_desc(m) + after_desc(m),
        render(with_desc(m, d)) == pre_desc(m) + desc_frag(d) + after_desc(m),
{
    lemma_render_split(m);
    assert(Seq::<char>::empty() + after_desc(m) =~= after_desc(m));
    let w = with_desc(m, d);
    lemma_render_split(w);
    assert(pre_desc(w) == pre_desc(m));
    assert(after_desc(w) == after_desc(m));
    lemma_assoc(pre_desc(m), desc_frag(d), after_desc(m));
}

/// Optional-field omission, manifest: as for the title, at its own slot.
pub proof fn lemma_manifest_omitted(m: Model, src: Seq<char>)
    requires
        m.manifest is None,
    ensures
        render(m) == pre_manifest(m) + after_manifest(m),
        render(with_manifest(m, src)) == pre_manifest(m) + manifest_frag(src) + after_manifest(m),
{
    assert(render(m) =~= pre_manifest(m) + after_manifest(m));
    assert(render(with_manifest(m, src)) =~= pre_manifest(m) + manifest_frag(src)
        + after_manifest(m));
}

/// Optional-field omission, theme color: as for the title, at its own slot.
pub proof fn lemma_theme_color_omitted(m: Model, c: Seq<char>)
    requires
        m.color is None,
    ensures
        render(m) == pre_color(m) + after_color(m),
        render(with_theme_color(m, c)) == pre_color(m) + theme_color_frag(c) + after_color(m),
{
    assert(render(m) =~= pre_color(m) + after_color(m));
    assert(render(with_theme_color(m, c)) =~= pre_color(m) + theme_color_frag(c) + after_color(m));
}

/// Optional-field omission, favicon: as for the title, at its own slot.
pub proof fn lemma_favicon_omitted(m: Model, src: Seq<char>)
    requires
        m.favicon is None,
    ensures
        render(m) == pre_favicon(m) + after_favicon(m),
        render(with_favicon(m, src)) == pre_favicon(m) + favicon_frag(src) + after_favicon(m),
{
    assert(render(m) =~= pre_favicon(m) + after_favicon(m));
    assert(render(with_favicon(m, src)) =~= pre_favicon(m) + favicon_frag(src) + after_favicon(m));
}

/// Optional-field omission, body: with no body set, nothing stands between
/// the head close tag and the root close tag; setting one inserts exactly
/// the raw fragment there.
pub proof fn lemma_body_omitted(m: Model, b: Seq<char>)
    requires
        m.body is None,
    ensures
        render(m) == pre_body(m) + html_close_s(),
        render(with_body(m, b)) == pre_body(m) + b + html_close_s(),
{
    assert(render(m) =~= pre_body(m) + html_close_s());
    assert(render(with_body(m, b)) =~= pre_body(m) + b + html_close_s());
}

/// Single injection: two async-preload style calls on a configuration that
/// has not yet injected the polyfill add both style link fragments, in call
/// order, but exactly one polyfill inline script, at the position of the
/// first call.
pub proof fn lemma_single_injection(m: Model, a: Seq<char>, b: Seq<char>)
    requires
        !m.has_async_style,
    ensures
        add_async_style(add_async_style(m, a), b).scripts == m.scripts.push(
            inline_script_frag(polyfill()),
        ),
        add_async_style(add_async_style(m, a), b).styles == m.styles.push(style_frag(a)).push(
            style_frag(b),
        ),
        add_async_style(add_async_style(m, a), b).has_async_style,
{
}

/// A configuration that has already injected the polyfill never injects it
/// again: a further async-preload style call only appends its link fragment.
pub proof fn lemma_no_reinjection(m: Model, a: Seq<char>)
    requires
        m.has_async_style,
    ensures
        add_async_style(m, a).scripts == m.scripts,
        add_async_style(m, a).styles == m.styles.push(style_frag(a)),
{
}

/// Idempotent rendering of setters: calling a singleton setter with values
/// A then B leaves the configuration exactly as calling it with B alone.
pub proof fn lemma_setter_overwrites(m: Model, a: Seq<char>, b: Seq<char>)
    ensures
        with_lang(with_lang(m, a), b) == with_lang(m, b),
        with_title(with_title(m, a), b) == with_title(m, b),
        with_desc(with_desc(m, a), b) == with_desc(m, b),
        with_theme_color(with_theme_color(m, a), b) == with_theme_color(m, b),
        with_favicon(with_favicon(m, a), b) == with_favicon(m, b),
        with_manifest(with_manifest(m, a), b) == with_manifest(m, b),
        with_body(with_body(m, a), b) == with_body(m, b),
{
    assert(with_lang(with_lang(m, a), b) =~= with_lang(m, b));
    assert(with_title(with_title(m, a), b) =~= with_title(m, b));
    assert(with_desc(with_desc(m, a), b) =~= with_desc(m, b));
    assert(with_theme_color(with_theme_color(m, a), b) =~= with_theme_color(m, b));
    assert(with_favicon(with_favicon(m, a), b) =~= with_favicon(m, b));
    assert(with_manifest(with_manifest(m, a), b) =~= with_manifest(m, b));
    assert(with_body(with_body(m, a), b) =~= with_body(m, b));
}

} // verus!
