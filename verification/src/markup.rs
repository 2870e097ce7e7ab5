//! How the tags of a piece of markup nest. A scan reads the markup one
//! character at a time and keeps the stack of tags opened and not yet
//! closed; a closing tag that does not match the innermost open tag is an
//! error. Void tags (`img`, `input`, `br`, `hr`, `meta`, `link`) and tags
//! written `<.../>` open nothing; `<!...>` is skipped; a `>` inside a
//! double-quoted attribute value does not end the tag.
use crate::elem::added_html;
use crate::elem::ElemView;
use vstd::prelude::*;

verus! {

/// Where the scan is within the markup.
pub enum TagMode {
    /// Between tags.
    Text,
    /// Just after `<`.
    Lt,
    /// Reading the name of an opening tag.
    OpenName { name: Seq<char> },
    /// Inside an opening tag, after its name; `quoted` inside a
    /// double-quoted value, `slash` right after a `/`.
    Attrs { name: Seq<char>, quoted: bool, slash: bool },
    /// Reading the name of a closing tag.
    CloseName { name: Seq<char> },
    /// Inside a closing tag, after its name.
    CloseTail { name: Seq<char> },
    /// Inside `<!...>`.
    Decl,
    /// A closing tag did not match.
    Mismatch,
}

/// The scan's state: where it is, and the tags open, outermost first.
pub struct TagScan {
    pub mode: TagMode,
    pub open: Seq<Seq<char>>,
}

pub open spec fn is_space(c: char) -> bool {
    c == ' ' || c == '\t' || c == '\n' || c == '\r'
}

/// Tags that have no closing tag.
pub open spec fn is_void_tag(name: Seq<char>) -> bool {
    name == "img"@ || name == "input"@ || name == "br"@ || name == "hr"@ || name == "meta"@
        || name == "link"@
}

/// The end of an opening tag named `name`.
pub open spec fn end_open_tag(open: Seq<Seq<char>>, name: Seq<char>, self_closing: bool) -> TagScan {
    TagScan {
        mode: TagMode::Text,
        open: if self_closing || is_void_tag(name) {
            open
        } else {
            open.push(name)
        },
    }
}

/// The end of a closing tag named `name`.
pub open spec fn end_close_tag(open: Seq<Seq<char>>, name: Seq<char>) -> TagScan {
    if open.len() > 0 && open.last() == name {
        TagScan { mode: TagMode::Text, open: open.drop_last() }
    } else {
        TagScan { mode: TagMode::Mismatch, open: open }
    }
}

/// The scan after one more character `c`.
pub open spec fn scan_step(st: TagScan, c: char) -> TagScan {
    let open = st.open;
    match st.mode {
        TagMode::Text => if c == '<' {
            TagScan { mode: TagMode::Lt, open }
        } else {
            st
        },
        TagMode::Lt => if c == '/' {
            TagScan { mode: TagMode::CloseName { name: seq![] }, open }
        } else if c == '!' {
            TagScan { mode: TagMode::Decl, open }
        } else if is_space(c) || c == '>' || c == '<' {
            TagScan { mode: if c == '<' { TagMode::Lt } else { TagMode::Text }, open }
        } else {
            TagScan { mode: TagMode::OpenName { name: seq![c] }, open }
        },
        TagMode::OpenName { name } => if is_space(c) {
            TagScan { mode: TagMode::Attrs { name, quoted: false, slash: false }, open }
        } else if c == '>' {
            end_open_tag(open, name, false)
        } else if c == '/' {
            TagScan { mode: TagMode::Attrs { name, quoted: false, slash: true }, open }
        } else {
            TagScan { mode: TagMode::OpenName { name: name.push(c) }, open }
        },
        TagMode::Attrs { name, quoted, slash } => if quoted {
            TagScan { mode: TagMode::Attrs { name, quoted: c != '"', slash: false }, open }
        } else if c == '"' {
            TagScan { mode: TagMode::Attrs { name, quoted: true, slash: false }, open }
        } else if c == '>' {
            end_open_tag(open, name, slash)
        } else {
            TagScan { mode: TagMode::Attrs { name, quoted: false, slash: c == '/' }, open }
        },
        TagMode::CloseName { name } => if c == '>' {
            end_close_tag(open, name)
        } else if is_space(c) {
            TagScan { mode: TagMode::CloseTail { name }, open }
        } else {
            TagScan { mode: TagMode::CloseName { name: name.push(c) }, open }
        },
        TagMode::CloseTail { name } => if c == '>' {
            end_close_tag(open, name)
        } else {
            st
        },
        TagMode::Decl => if c == '>' {
            TagScan { mode: TagMode::Text, open }
        } else {
            st
        },
        TagMode::Mismatch => st,
    }
}

/// The scan of `s` from `st`.
pub open spec fn scan_from(st: TagScan, s: Seq<char>) -> TagScan
    decreases s.len(),
{
    if s.len() == 0 {
        st
    } else {
        scan_step(scan_from(st, s.drop_last()), s.last())
    }
}

/// The scan of `s` from its start: between tags, nothing open.
pub open spec fn scan_markup(s: Seq<char>) -> TagScan {
    scan_from(TagScan { mode: TagMode::Text, open: seq![] }, s)
}

/// `s` ends between tags, with every tag matched and nothing mismatched.
pub open spec fn well_nested(s: Seq<char>) -> bool {
    scan_markup(s) == TagScan { mode: TagMode::Text, open: seq![] }
}

/// `s` ends between tags, with nothing mismatched (tags may remain open).
pub open spec fn ends_between_tags(s: Seq<char>) -> bool {
    scan_markup(s).mode == TagMode::Text
}

/// Scanning two pieces one after the other is scanning them joined.
pub proof fn lemma_scan_concat(st: TagScan, a: Seq<char>, b: Seq<char>)
    ensures
        scan_from(st, a + b) == scan_from(scan_from(st, a), b),
    decreases b.len(),
{
    if b.len() == 0 {
        assert(a + b =~= a);
    } else {
        lemma_scan_concat(st, a, b.drop_last());
        assert((a + b).drop_last() =~= a + b.drop_last());
        assert((a + b).last() == b.last());
    }
}

/// A mismatch stays.
proof fn lemma_mismatch_stays(st: TagScan, s: Seq<char>)
    requires
        st.mode == TagMode::Mismatch,
    ensures
        scan_from(st, s) == st,
    decreases s.len(),
{
    if s.len() > 0 {
        lemma_mismatch_stays(st, s.drop_last());
    }
}

/// One step below further open tags `base` is the same step, those tags
/// kept underneath, as long as the step does not mismatch.
proof fn lemma_step_under(base: Seq<Seq<char>>, st: TagScan, c: char)
    requires
        scan_step(st, c).mode != TagMode::Mismatch,
    ensures
        scan_step(TagScan { mode: st.mode, open: base + st.open }, c) == (TagScan {
            mode: scan_step(st, c).mode,
            open: base + scan_step(st, c).open,
        }),
{
    if st.open.len() > 0 {
        assert((base + st.open).last() == st.open.last());
        assert((base + st.open).drop_last() =~= base + st.open.drop_last());
    }
    match st.mode {
        TagMode::OpenName { name } => {
            assert((base + st.open).push(name) =~= base + st.open.push(name));
        },
        TagMode::Attrs { name, .. } => {
            assert((base + st.open).push(name) =~= base + st.open.push(name));
        },
        _ => {},
    }
}

/// A scan that does not mismatch runs the same on top of further open
/// tags, leaving them in place.
pub proof fn lemma_scan_under(base: Seq<Seq<char>>, st: TagScan, s: Seq<char>)
    requires
        scan_from(st, s).mode != TagMode::Mismatch,
    ensures
        scan_from(TagScan { mode: st.mode, open: base + st.open }, s) == (TagScan {
            mode: scan_from(st, s).mode,
            open: base + scan_from(st, s).open,
        }),
    decreases s.len(),
{
    if s.len() == 0 {
    } else {
        let prev = scan_from(st, s.drop_last());
        if prev.mode == TagMode::Mismatch {
            assert(scan_step(prev, s.last()) == prev);
        }
        lemma_scan_under(base, st, s.drop_last());
        lemma_step_under(base, prev, s.last());
    }
}

/// Adding a closed element keeps the nesting of the parent's markup:
/// when `n`'s markup (what `Elem::add` appends, `added_html`) is well
/// nested and the parent's markup ends between tags, the tags left open
/// are the same after the addition as before, so the parent's markup
/// closed by its closing markup is well nested after exactly when it was
/// before.
pub proof fn law_add_keeps_nesting(parent: ElemView, n: ElemView)
    requires
        well_nested(added_html(n)),
        ends_between_tags(parent.html),
    ensures
        scan_markup(parent.html + added_html(n)) == scan_markup(parent.html),
        well_nested(parent.html + added_html(n) + parent.h_end) == well_nested(
            parent.html + parent.h_end,
        ),
{
    let init = TagScan { mode: TagMode::Text, open: seq![] };
    let p = scan_markup(parent.html);
    let a = added_html(n);
    lemma_scan_concat(init, parent.html, a);
    lemma_scan_under(p.open, init, a);
    assert(p.open + init.open =~= p.open);
    assert(p.open + scan_from(init, a).open =~= p.open);
    lemma_scan_concat(init, parent.html + a, parent.h_end);
    lemma_scan_concat(init, parent.html, parent.h_end);
}

} // verus!
