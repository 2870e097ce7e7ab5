//! The page configuration: element ids, the page head and its websocket
//! client, and the builders of every kind of element.
use crate::channel::{clone_receiver, clone_sender, unbounded_channel};
use crate::elem::{leaf_view, ElType, Elem, ElemView, lemma_elem_views, elem_views, added_html, added_js, subs_html, subs_js};
use crate::events::Callbacks;
use crate::templates::{BADGE_HTML_0, BADGE_HTML_1, BADGE_HTML_2, BADGE_HTML_3, BLOCK_END_0, BUTTON_HTML_0, BUTTON_HTML_1, BUTTON_HTML_2, BUTTON_HTML_3, BUTTON_HTML_4, BUTTON_HTML_5, BUTTON_JS_0, BUTTON_JS_1, BUTTON_JS_2, CARD_END_0, CARD_START_0, CARD_START_1, CARD_START_2, CARD_START_3, COLSPAN_END_0, COLSPAN_START_0, COLSPAN_START_1, COLSPAN_START_2, COL_START_0, COL_START_1, CONTAINER_START_0, CONTAINER_START_1, DROPDOWN_HEAD_0, DROPDOWN_HEAD_1, DROPDOWN_HEAD_2, DROPDOWN_HEAD_3, DROPDOWN_HEAD_4, DROPDOWN_HEAD_5, DROPDOWN_ITEM_1, DROPDOWN_ITEM_2, DROPDOWN_ITEM_3, DROPDOWN_JS_0, DROPDOWN_JS_1, DROPDOWN_JS_2, DROPDOWN_TAIL_1, FILE_INPUT_HTML_0, FILE_INPUT_HTML_1, FILE_INPUT_HTML_2, FILE_INPUT_HTML_3, FILE_INPUT_HTML_4, FILE_INPUT_HTML_5, FILE_INPUT_JS_0, FILE_INPUT_JS_1, FILE_INPUT_JS_2, FILE_INPUT_JS_3, ICON_BUTTON_HTML_0, ICON_BUTTON_HTML_1, ICON_BUTTON_HTML_2, ICON_BUTTON_HTML_3, ICON_BUTTON_HTML_4, ICON_BUTTON_HTML_5, ICON_BUTTON_HTML_6, ICON_BUTTON_JS_0, ICON_BUTTON_JS_1, ICON_BUTTON_JS_2, IMAGE_HTML_0, IMAGE_HTML_1, IMAGE_HTML_2, IMAGE_HTML_3, IMAGE_HTML_4, INPUT_HTML_0, INPUT_HTML_1, INPUT_HTML_2, INPUT_HTML_3, INPUT_HTML_4, INPUT_JS_0, INPUT_JS_1, INPUT_JS_2, INPUT_JS_3, LABEL_HTML_0, LABEL_HTML_1, LABEL_HTML_2, MODAL_HTML_0, MODAL_HTML_2, MODAL_HTML_3, MODAL_HTML_4, MODAL_HTML_5, MODAL_HTML_6, MODAL_HTML_7, MODAL_HTML_8, MODAL_JS_0, MODAL_JS_1, MODAL_JS_2, MODAL_JS_3, MODAL_JS_4, PAGE_END_0, PAGE_HEAD_0, PAGE_HEAD_1, PARAGRAPH_START_0, PARAGRAPH_START_1, PLOTLY_SCRIPT_0, RADIO_ITEM_0, RADIO_ITEM_1, RADIO_ITEM_2, RADIO_ITEM_3, RADIO_ITEM_4, RADIO_ITEM_5, RADIO_ITEM_6, RADIO_ITEM_7, RADIO_ITEM_8, RADIO_JS_0, RADIO_JS_1, RADIO_JS_2, ROW_START_0, ROW_START_1, SLIDER_HTML_0, SLIDER_HTML_1, SLIDER_HTML_2, SLIDER_HTML_3, SLIDER_HTML_4, SLIDER_HTML_5, SLIDER_JS_0, SLIDER_JS_1, SLIDER_JS_2, SLIDER_JS_3, SLIDER_JS_4, SLIDER_JS_5, TABS_HEAD_0, TABS_TAIL_1, TAB_ITEM_1, TAB_ITEM_2, TAB_ITEM_4, TAB_ITEM_5, TAB_ITEM_6, TAB_PANE_0, TAB_PANE_1, TAB_PANE_2, TEXTAREA_HTML_0, TEXTAREA_HTML_1, TEXTAREA_HTML_2, TEXTAREA_JS_0, TEXTAREA_JS_1, TEXTAREA_JS_2, TEXTAREA_JS_3, TEXTAREA_JS_4, WS_CLIENT_JS_0, WS_CLIENT_JS_1};
use crate::text::{decimal, i32_to_decimal, signed_decimal, usize_to_decimal};
use crossbeam_channel::{Receiver, Sender};
use vstd::prelude::*;
use vstd::string::*;

verus! {

/// The configuration of a page as the contracts see it.
pub struct GuiView {
    pub fh_name: Seq<char>,
    pub id_count: int,
    pub serve_url: Seq<char>,
    pub ws_url: Seq<char>,
    pub browser_start: bool,
    pub plot_included: bool,
    pub exit_on_window_close: bool,
}

impl GuiView {
    /// The same configuration after `k` more ids were handed out.
    pub open spec fn advance(self, k: int) -> GuiView {
        GuiView { id_count: self.id_count + k, ..self }
    }

    /// The id that the `k`-th next element gets (`k` from 1).
    pub open spec fn next_id(self, k: int) -> Seq<char> {
        id_text(self.id_count + k)
    }
}

/// The id of the `n`-th element of a page: `ID` and `n` in decimal.
pub open spec fn id_text(n: int) -> Seq<char> {
    "ID"@ + signed_decimal(n)
}

/// Page configuration: where the page is written, the element id counter,
/// the addresses it is served on, and the channel to the websocket thread.
#[derive(Debug)]
pub struct GuiCfg {
    fh_name: String,
    id_cnt: i32,
    serve_url: String,
    ws_url: String,
    tx_ws: Sender<String>,
    rx_ws: Receiver<String>,
    pub browser_start: bool,
    pub plot_included: bool,
    pub exit_on_window_close: bool,
}

impl View for GuiCfg {
    type V = GuiView;

    closed spec fn view(&self) -> GuiView {
        GuiView {
            fh_name: self.fh_name@,
            id_count: self.id_cnt as int,
            serve_url: self.serve_url@,
            ws_url: self.ws_url@,
            browser_start: self.browser_start,
            plot_included: self.plot_included,
            exit_on_window_close: self.exit_on_window_close,
        }
    }
}

impl Default for GuiCfg {
    /// A configuration with no element yet, the page written to
    /// `static/index.html`, and the websocket address not bound yet.
    fn default() -> (g: GuiCfg)
        ensures
            g@ == (GuiView {
                fh_name: "static/index.html"@,
                id_count: 0,
                serve_url: Seq::<char>::empty(),
                ws_url: "127.0.0.1:9000"@,
                browser_start: false,
                plot_included: false,
                exit_on_window_close: false,
            }),
    {
        let (tx_ws, rx_ws) = unbounded_channel::<String>();
        GuiCfg {
            fh_name: String::from_str("static/index.html"),
            id_cnt: 0,
            serve_url: String::new(),
            ws_url: String::from_str("127.0.0.1:9000"),
            tx_ws: tx_ws,
            rx_ws: rx_ws,
            browser_start: false,
            plot_included: false,
            exit_on_window_close: false,
        }
    }
}

// ------------------------------------------------------------------
// Markup and script of each kind of element
// ------------------------------------------------------------------

/// The closing part of the page head: the plotting library when asked for.
pub open spec fn page_end(plot_included: bool) -> Seq<char> {
    PAGE_END_0@ + if plot_included {
        PLOTLY_SCRIPT_0@
    } else {
        Seq::<char>::empty()
    }
}

pub open spec fn page_head(title: Seq<char>) -> Seq<char> {
    PAGE_HEAD_0@ + title + PAGE_HEAD_1@
}

pub open spec fn ws_client_js(ws_url: Seq<char>) -> Seq<char> {
    WS_CLIENT_JS_0@ + ws_url + WS_CLIENT_JS_1@
}

pub open spec fn button_html(b_type: Seq<char>, id: Seq<char>, text: Seq<char>) -> Seq<char> {
    BUTTON_HTML_0@ + b_type + BUTTON_HTML_1@ + id + BUTTON_HTML_2@ + id + BUTTON_HTML_3@ + id
        + BUTTON_HTML_4@ + text + BUTTON_HTML_5@
}

pub open spec fn button_js(id: Seq<char>) -> Seq<char> {
    BUTTON_JS_0@ + id + BUTTON_JS_1@ + id + BUTTON_JS_2@
}

pub open spec fn icon_button_html(
    b_type: Seq<char>,
    id: Seq<char>,
    icon: Seq<char>,
    text: Seq<char>,
) -> Seq<char> {
    ICON_BUTTON_HTML_0@ + b_type + ICON_BUTTON_HTML_1@ + id + ICON_BUTTON_HTML_2@ + id
        + ICON_BUTTON_HTML_3@ + icon + ICON_BUTTON_HTML_4@ + id + ICON_BUTTON_HTML_5@ + text
        + ICON_BUTTON_HTML_6@
}

pub open spec fn icon_button_js(id: Seq<char>) -> Seq<char> {
    ICON_BUTTON_JS_0@ + id + ICON_BUTTON_JS_1@ + id + ICON_BUTTON_JS_2@
}

pub open spec fn label_html(id: Seq<char>, text: Seq<char>) -> Seq<char> {
    LABEL_HTML_0@ + id + LABEL_HTML_1@ + text + LABEL_HTML_2@
}

pub open spec fn str_views(v: Seq<&str>) -> Seq<Seq<char>> {
    v.map_values(|s: &str| s@)
}

/// The menu entries of a dropdown, one per option.
pub open spec fn dropdown_items(options: Seq<Seq<char>>) -> Seq<char>
    decreases options.len(),
{
    if options.len() == 0 {
        seq![]
    } else {
        dropdown_items(options.drop_last()) + DROPDOWN_ITEM_1@ + "#"@ + DROPDOWN_ITEM_2@
            + options.last() + DROPDOWN_ITEM_3@
    }
}

pub open spec fn dropdown_html(
    b_type: Seq<char>,
    id: Seq<char>,
    text: Seq<char>,
    options: Seq<Seq<char>>,
) -> Seq<char> {
    DROPDOWN_HEAD_0@ + b_type + DROPDOWN_HEAD_1@ + id + DROPDOWN_HEAD_2@ + text + DROPDOWN_HEAD_3@
        + id + DROPDOWN_HEAD_4@ + id + DROPDOWN_HEAD_5@ + dropdown_items(options)
        + DROPDOWN_TAIL_1@
}

pub open spec fn dropdown_js(id: Seq<char>) -> Seq<char> {
    DROPDOWN_JS_0@ + id + DROPDOWN_JS_1@ + id + DROPDOWN_JS_2@
}

pub open spec fn input_html(id: Seq<char>, placeholder: Seq<char>) -> Seq<char> {
    INPUT_HTML_0@ + id + INPUT_HTML_1@ + id + INPUT_HTML_2@ + placeholder + INPUT_HTML_3@ + id
        + INPUT_HTML_4@
}

pub open spec fn input_js(id: Seq<char>) -> Seq<char> {
    INPUT_JS_0@ + id + INPUT_JS_1@ + id + INPUT_JS_2@ + id + INPUT_JS_3@
}

pub open spec fn file_input_html(id: Seq<char>, text: Seq<char>) -> Seq<char> {
    FILE_INPUT_HTML_0@ + id + FILE_INPUT_HTML_1@ + id + FILE_INPUT_HTML_2@ + text
        + FILE_INPUT_HTML_3@ + id + FILE_INPUT_HTML_4@ + id + FILE_INPUT_HTML_5@
}

pub open spec fn file_input_js(id: Seq<char>) -> Seq<char> {
    FILE_INPUT_JS_0@ + id + FILE_INPUT_JS_1@ + id + FILE_INPUT_JS_2@ + id + FILE_INPUT_JS_3@
}

/// The link of tab `ind`: the first one is the active one.
pub open spec fn tab_item(ind: int, id: Seq<char>, text: Seq<char>) -> Seq<char> {
    TAB_ITEM_1@ + (if ind == 0 {
        "active"@
    } else {
        ""@
    }) + TAB_ITEM_2@ + "#"@ + id + TAB_ITEM_4@ + id + TAB_ITEM_5@ + text + TAB_ITEM_6@
}

/// The links of the first `texts.len()` tabs, whose ids follow `first`.
pub open spec fn tab_items(g: GuiView, texts: Seq<Seq<char>>) -> Seq<char>
    decreases texts.len(),
{
    if texts.len() == 0 {
        seq![]
    } else {
        tab_items(g, texts.drop_last()) + tab_item(
            texts.len() - 1,
            g.next_id(texts.len() as int),
            texts.last(),
        )
    }
}

pub open spec fn tabs_html(g: GuiView, texts: Seq<Seq<char>>) -> Seq<char> {
    TABS_HEAD_0@ + tab_items(g, texts) + TABS_TAIL_1@
}

/// The pane of tab `ind`: the first one is shown.
pub open spec fn tab_pane(ind: int, id: Seq<char>) -> ElemView {
    leaf_view(
        ElType::TPaneT,
        id,
        TAB_PANE_0@ + (if ind == 0 {
            "show active"@
        } else {
            "fade"@
        }) + TAB_PANE_1@ + id + TAB_PANE_2@,
        "</div>"@,
        seq![],
    )
}

pub open spec fn modal_html(
    id1: Seq<char>,
    id2: Seq<char>,
    title: Seq<char>,
    text: Seq<char>,
    bt1_text: Seq<char>,
    bt2_text: Seq<char>,
) -> Seq<char> {
    MODAL_HTML_0@ + id1 + id2 + MODAL_HTML_2@ + title + MODAL_HTML_3@ + text + MODAL_HTML_4@ + id1
        + MODAL_HTML_5@ + bt1_text + MODAL_HTML_6@ + id2 + MODAL_HTML_7@ + bt2_text
        + MODAL_HTML_8@
}

pub open spec fn modal_js(id1: Seq<char>, id2: Seq<char>) -> Seq<char> {
    MODAL_JS_0@ + id1 + MODAL_JS_1@ + id1 + MODAL_JS_2@ + id2 + MODAL_JS_3@ + id2 + MODAL_JS_4@
}

/// A dialog button: a bare element of kind button with only an id.
pub open spec fn modal_button(id: Seq<char>) -> ElemView {
    ElemView {
        el_type: ElType::ButtonT,
        h_start: seq![],
        h_end: seq![],
        html: seq![],
        js: seq![],
        id: id,
        sub_elems: seq![],
        sub_start: seq![],
        sub_end: seq![],
        has_ws: false,
        has_ta_ws: false,
        has_modal_tx: false,
        has_modal_rx: false,
    }
}

pub open spec fn textarea_html(id: Seq<char>, rows: i32) -> Seq<char> {
    TEXTAREA_HTML_0@ + id + TEXTAREA_HTML_1@ + signed_decimal(rows as int) + TEXTAREA_HTML_2@
}

pub open spec fn textarea_js(id: Seq<char>, addr: Seq<char>) -> Seq<char> {
    TEXTAREA_JS_0@ + id + TEXTAREA_JS_1@ + addr + TEXTAREA_JS_2@ + id + TEXTAREA_JS_3@ + id
        + TEXTAREA_JS_4@
}

pub open spec fn container_start(id: Seq<char>) -> Seq<char> {
    CONTAINER_START_0@ + id + CONTAINER_START_1@
}

pub open spec fn row_start(id: Seq<char>) -> Seq<char> {
    ROW_START_0@ + id + ROW_START_1@
}

pub open spec fn col_start(id: Seq<char>) -> Seq<char> {
    COL_START_0@ + id + COL_START_1@
}

pub open spec fn colspan_start(span: i32, id: Seq<char>) -> Seq<char> {
    COLSPAN_START_0@ + signed_decimal(span as int) + COLSPAN_START_1@ + id + COLSPAN_START_2@
}

pub open spec fn image_html(id: Seq<char>, file_name: Seq<char>, width: i32, height: i32) -> Seq<
    char,
> {
    IMAGE_HTML_0@ + id + IMAGE_HTML_1@ + file_name + IMAGE_HTML_2@ + signed_decimal(width as int)
        + IMAGE_HTML_3@ + signed_decimal(height as int) + IMAGE_HTML_4@
}

pub open spec fn card_start(id: Seq<char>, header: Seq<char>, title: Seq<char>) -> Seq<char> {
    CARD_START_0@ + header + CARD_START_1@ + id + CARD_START_2@ + title + CARD_START_3@
}

/// Whether radio button `ind` starts checked.
pub open spec fn radio_checked(ind: int, checked_ind: i32) -> Seq<char> {
    if checked_ind >= 0 && ind == checked_ind {
        "checked"@
    } else {
        ""@
    }
}

/// The markup of the first `texts.len()` radio buttons of a group: each
/// one wraps the markup of those before it.
pub open spec fn radio_html(g: GuiView, texts: Seq<Seq<char>>, checked_ind: i32) -> Seq<char>
    decreases texts.len(),
{
    if texts.len() == 0 {
        seq![]
    } else {
        let ind = texts.len() - 1;
        let single = g.next_id(1) + "radio"@;
        let id = g.next_id(ind + 1);
        RADIO_ITEM_0@ + radio_html(g, texts.drop_last(), checked_ind) + RADIO_ITEM_1@ + decimal(
            ind as nat,
        ) + RADIO_ITEM_2@ + single + RADIO_ITEM_3@ + id + RADIO_ITEM_4@ + radio_checked(
            ind,
            checked_ind,
        ) + RADIO_ITEM_5@ + single + RADIO_ITEM_6@ + id + RADIO_ITEM_7@ + texts.last()
            + RADIO_ITEM_8@
    }
}

/// `w` stands somewhere in `s`.
pub open spec fn contains_text(s: Seq<char>, w: Seq<char>) -> bool {
    exists|i: int| 0 <= i && i + w.len() <= s.len() && #[trigger] s.subrange(i, i + w.len()) == w
}

proof fn lemma_contains_inner(a: Seq<char>, b: Seq<char>, c: Seq<char>, w: Seq<char>)
    requires
        contains_text(b, w),
    ensures
        contains_text(a + b + c, w),
{
    let i = choose|i: int| 0 <= i && i + w.len() <= b.len() && #[trigger] b.subrange(i, i + w.len()) == w;
    let j = a.len() + i;
    assert((a + b + c).subrange(j, j + w.len()) =~= b.subrange(i, i + w.len()));
}

/// Button `k` of a radio group, inside the markup of the buttons before
/// it: its value `k`, the group's name, its own id, the attribute
/// `checked` exactly when `k` is the checked position, its handler, and
/// its label with its text.
pub proof fn law_radio_button(g: GuiView, texts: Seq<Seq<char>>, checked_ind: i32, k: int)
    requires
        0 <= k < texts.len(),
    ensures
        radio_html(g, texts.take(k + 1), checked_ind) == RADIO_ITEM_0@ + radio_html(
            g,
            texts.take(k),
            checked_ind,
        ) + (RADIO_ITEM_1@ + decimal(k as nat) + RADIO_ITEM_2@ + g.next_id(1) + "radio"@
            + RADIO_ITEM_3@ + g.next_id(k + 1) + RADIO_ITEM_4@) + (if k == checked_ind {
            "checked"@
        } else {
            ""@
        }) + (RADIO_ITEM_5@ + g.next_id(1) + "radio"@ + RADIO_ITEM_6@ + g.next_id(k + 1)
            + RADIO_ITEM_7@ + texts[k] + RADIO_ITEM_8@),
{
    let t = texts.take(k + 1);
    assert(t.drop_last() =~= texts.take(k));
    assert(t.last() == texts[k]);
    assert(radio_html(g, t, checked_ind) =~= RADIO_ITEM_0@ + radio_html(
        g,
        texts.take(k),
        checked_ind,
    ) + (RADIO_ITEM_1@ + decimal(k as nat) + RADIO_ITEM_2@ + g.next_id(1) + "radio"@
        + RADIO_ITEM_3@ + g.next_id(k + 1) + RADIO_ITEM_4@) + (if k == checked_ind {
        "checked"@
    } else {
        ""@
    }) + (RADIO_ITEM_5@ + g.next_id(1) + "radio"@ + RADIO_ITEM_6@ + g.next_id(k + 1)
        + RADIO_ITEM_7@ + texts[k] + RADIO_ITEM_8@));
}

proof fn lemma_contains_at(pre: Seq<char>, w: Seq<char>, post: Seq<char>)
    ensures
        contains_text(pre + w + post, w),
{
    let j = pre.len() as int;
    assert((pre + w + post).subrange(j, j + w.len()) =~= w);
}

/// The markup of a radio group whose checked position is one of its
/// buttons holds the attribute `checked`.
pub proof fn law_radio_has_checked(g: GuiView, texts: Seq<Seq<char>>, checked_ind: i32)
    requires
        0 <= checked_ind < texts.len(),
    ensures
        contains_text(radio_html(g, texts, checked_ind), "checked"@),
    decreases texts.len(),
{
    let k = texts.len() - 1;
    let d = texts.drop_last();
    assert(texts.take(k + 1) =~= texts);
    assert(texts.take(k) =~= d);
    law_radio_button(g, texts, checked_ind, k);
    let inner = radio_html(g, d, checked_ind);
    let head = RADIO_ITEM_1@ + decimal(k as nat) + RADIO_ITEM_2@ + g.next_id(1) + "radio"@
        + RADIO_ITEM_3@ + g.next_id(k + 1) + RADIO_ITEM_4@;
    let tail = RADIO_ITEM_5@ + g.next_id(1) + "radio"@ + RADIO_ITEM_6@ + g.next_id(k + 1)
        + RADIO_ITEM_7@ + texts[k] + RADIO_ITEM_8@;
    if k == checked_ind {
        lemma_contains_at(RADIO_ITEM_0@ + inner + head, "checked"@, tail);
    } else {
        law_radio_has_checked(g, d, checked_ind);
        lemma_contains_inner(RADIO_ITEM_0@, inner, head + ""@ + tail, "checked"@);
        assert(RADIO_ITEM_0@ + inner + head + ""@ + tail =~= RADIO_ITEM_0@ + inner + (head + ""@
            + tail));
    }
}

pub open spec fn radio_js(single: Seq<char>) -> Seq<char> {
    RADIO_JS_0@ + single + RADIO_JS_1@ + single + RADIO_JS_2@
}

pub open spec fn slider_html(id: Seq<char>, min: Seq<char>, max: Seq<char>, step: Seq<char>) -> Seq<
    char,
> {
    SLIDER_HTML_0@ + id + SLIDER_HTML_1@ + min + SLIDER_HTML_2@ + max + SLIDER_HTML_3@ + step
        + SLIDER_HTML_4@ + id + SLIDER_HTML_5@
}

pub open spec fn slider_js(id: Seq<char>, initial: Seq<char>) -> Seq<char> {
    SLIDER_JS_0@ + id + SLIDER_JS_1@ + id + SLIDER_JS_2@ + id + SLIDER_JS_3@ + id + SLIDER_JS_4@
        + initial + SLIDER_JS_5@
}

pub open spec fn badge_html(id: Seq<char>, b_type: Seq<char>, text: Seq<char>) -> Seq<char> {
    BADGE_HTML_0@ + id + BADGE_HTML_1@ + b_type + BADGE_HTML_2@ + text + BADGE_HTML_3@
}

pub open spec fn paragraph_start(id: Seq<char>) -> Seq<char> {
    PARAGRAPH_START_0@ + id + PARAGRAPH_START_1@
}

// ------------------------------------------------------------------
// Ids
// ------------------------------------------------------------------

/// Different positions of the id counter give different ids.
pub proof fn law_ids_distinct(a: int, b: int)
    requires
        0 <= a,
        0 <= b,
        a != b,
    ensures
        id_text(a) != id_text(b),
{
    reveal_strlit("ID");
    if id_text(a) == id_text(b) {
        assert(id_text(a).skip(2) =~= decimal(a as nat));
        assert(id_text(b).skip(2) =~= decimal(b as nat));
        crate::text::lemma_decimal_injective(a as nat, b as nat);
    }
}

impl GuiCfg {
    /// Where the page is written.
    pub fn fh_name(&self) -> (r: &str)
        ensures
            r@ == self@.fh_name,
    {
        self.fh_name.as_str()
    }

    /// How many ids were handed out.
    pub fn id_count(&self) -> (n: i32)
        ensures
            n == self@.id_count,
    {
        self.id_cnt
    }

    /// The address of the websocket server.
    pub fn ws_url(&self) -> (r: &str)
        ensures
            r@ == self@.ws_url,
    {
        self.ws_url.as_str()
    }

    /// Records the address the websocket server was bound to.
    pub fn set_ws_url(&mut self, url: &str)
        ensures
            final(self)@ == (GuiView { ws_url: url@, ..old(self)@ }),
    {
        self.ws_url = String::from_str(url);
    }

    /// The address the page is served on.
    pub fn serve_url(&self) -> (r: &str)
        ensures
            r@ == self@.serve_url,
    {
        self.serve_url.as_str()
    }

    /// Records the address the page is served on.
    pub fn set_serve_url(&mut self, url: &str)
        ensures
            final(self)@ == (GuiView { serve_url: url@, ..old(self)@ }),
    {
        self.serve_url = String::from_str(url);
    }

    /// A receiving end of the channel through which elements send their
    /// messages to the websocket thread.
    pub fn ws_receiver(&self) -> (r: Receiver<String>) {
        clone_receiver(&self.rx_ws)
    }

    /// A new unique id.
    pub(crate) fn id_new(&mut self) -> (id: String)
        requires
            old(self)@.id_count < i32::MAX,
        ensures
            final(self)@ == old(self)@.advance(1),
            id@ == old(self)@.next_id(1),
    {
        self.id_cnt = self.id_cnt + 1;
        let n = i32_to_decimal(self.id_cnt);
        let mut id = String::from_str("ID");
        id.append(n.as_str());
        id
    }

    /// A new element with a sending end to the websocket thread.
    pub(crate) fn leaf(&self, t: ElType, id: String, h_start: String, h_end: String, js: String) -> (e:
        Elem)
        ensures
            e@ == leaf_view(t, id@, h_start@, h_end@, js@),
    {
        Elem::new_leaf(t, id, h_start, h_end, js, Some(clone_sender(&self.tx_ws)))
    }

    /// Starts a page titled `title`: the callbacks, empty so far, and the
    /// body, which holds the page head and the websocket client.
    pub fn init<H>(&mut self, title: &str) -> (r: (Callbacks<H>, Elem))
        ensures
            final(self)@ == old(self)@,
            r.0.entries() == Seq::<crate::events::CallbackView>::empty(),
            r.0.handlers() == Seq::<H>::empty(),
            r.1@ == leaf_view(
                ElType::BodyT,
                "body"@,
                page_head(title@),
                page_end(old(self)@.plot_included),
                ws_client_js(old(self)@.ws_url),
            ),
    {
        let mut h_start = String::new();
        h_start.append(PAGE_HEAD_0);
        h_start.append(title);
        h_start.append(PAGE_HEAD_1);
        let mut h_end = String::from_str(PAGE_END_0);
        if self.plot_included {
            h_end.append(PLOTLY_SCRIPT_0);
        }
        assert(h_end@ =~= page_end(self@.plot_included));
        let mut js = String::new();
        js.append(WS_CLIENT_JS_0);
        js.append(self.ws_url.as_str());
        js.append(WS_CLIENT_JS_1);
        let e = self.leaf(ElType::BodyT, String::from_str("body"), h_start, h_end, js);
        (Callbacks::default(), e)
    }

    /// A button of Bootstrap type `b_type` ("primary", "secondary",
    /// "success", "danger", "warning", "info", "light", "dark") showing `text`.
    pub fn button_new(&mut self, b_type: &str, text: &str) -> (e: Elem)
        requires
            old(self)@.id_count < i32::MAX,
        ensures
            final(self)@ == old(self)@.advance(1),
            e@ == leaf_view(
                ElType::ButtonT,
                old(self)@.next_id(1),
                button_html(b_type@, old(self)@.next_id(1), text@),
                seq![],
                button_js(old(self)@.next_id(1)),
            ),
    {
        let id = self.id_new();
        let i = id.as_str();
        let mut h = String::new();
        h.append(BUTTON_HTML_0);
        h.append(b_type);
        h.append(BUTTON_HTML_1);
        h.append(i);
        h.append(BUTTON_HTML_2);
        h.append(i);
        h.append(BUTTON_HTML_3);
        h.append(i);
        h.append(BUTTON_HTML_4);
        h.append(text);
        h.append(BUTTON_HTML_5);
        let mut js = String::new();
        js.append(BUTTON_JS_0);
        js.append(i);
        js.append(BUTTON_JS_1);
        js.append(i);
        js.append(BUTTON_JS_2);
        self.leaf(ElType::ButtonT, id, h, String::new(), js)
    }

    /// A button of type `b_type` with the Bootstrap icon `icon_name` and `text`.
    pub fn button_withicon_new(&mut self, b_type: &str, icon_name: &str, text: &str) -> (e: Elem)
        requires
            old(self)@.id_count < i32::MAX,
        ensures
            final(self)@ == old(self)@.advance(1),
            e@ == leaf_view(
                ElType::ButtonT,
                old(self)@.next_id(1),
                icon_button_html(b_type@, old(self)@.next_id(1), icon_name@, text@),
                seq![],
                icon_button_js(old(self)@.next_id(1)),
            ),
    {
        let id = self.id_new();
        let i = id.as_str();
        let mut h = String::new();
        h.append(ICON_BUTTON_HTML_0);
        h.append(b_type);
        h.append(ICON_BUTTON_HTML_1);
        h.append(i);
        h.append(ICON_BUTTON_HTML_2);
        h.append(i);
        h.append(ICON_BUTTON_HTML_3);
        h.append(icon_name);
        h.append(ICON_BUTTON_HTML_4);
        h.append(i);
        h.append(ICON_BUTTON_HTML_5);
        h.append(text);
        h.append(ICON_BUTTON_HTML_6);
        let mut js = String::new();
        js.append(ICON_BUTTON_JS_0);
        js.append(i);
        js.append(ICON_BUTTON_JS_1);
        js.append(i);
        js.append(ICON_BUTTON_JS_2);
        self.leaf(ElType::ButtonT, id, h, String::new(), js)
    }

    /// A label showing `text`.
    pub fn label_new(&mut self, text: &str) -> (e: Elem)
        requires
            old(self)@.id_count < i32::MAX,
        ensures
            final(self)@ == old(self)@.advance(1),
            e@ == leaf_view(
                ElType::LabelT,
                old(self)@.next_id(1),
                label_html(old(self)@.next_id(1), text@),
                seq![],
                seq![],
            ),
    {
        let id = self.id_new();
        let mut h = String::new();
        h.append(LABEL_HTML_0);
        h.append(id.as_str());
        h.append(LABEL_HTML_1);
        h.append(text);
        h.append(LABEL_HTML_2);
        self.leaf(ElType::LabelT, id, h, String::new(), String::new())
    }

    /// A dropdown button of type `b_type` showing `text`, with one menu
    /// entry per option in `list`.
    pub fn dropdown_new(&mut self, b_type: &str, text: &str, list: Vec<&str>) -> (e: Elem)
        requires
            old(self)@.id_count < i32::MAX,
        ensures
            final(self)@ == old(self)@.advance(1),
            e@ == leaf_view(
                ElType::DDownT,
                old(self)@.next_id(1),
                dropdown_html(b_type@, old(self)@.next_id(1), text@, str_views(list@)),
                seq![],
                dropdown_js(old(self)@.next_id(1)),
            ),
    {
        let id = self.id_new();
        let i = id.as_str();
        let mut h = String::new();
        h.append(DROPDOWN_HEAD_0);
        h.append(b_type);
        h.append(DROPDOWN_HEAD_1);
        h.append(i);
        h.append(DROPDOWN_HEAD_2);
        h.append(text);
        h.append(DROPDOWN_HEAD_3);
        h.append(i);
        h.append(DROPDOWN_HEAD_4);
        h.append(i);
        h.append(DROPDOWN_HEAD_5);
        let ghost head = h@;
        let ghost opts = str_views(list@);
        let mut k: usize = 0;
        assert(opts.take(0) =~= Seq::<Seq<char>>::empty());
        while k < list.len()
            invariant
                k <= list@.len(),
                opts == str_views(list@),
                h@ == head + dropdown_items(opts.take(k as int)),
            decreases list@.len() - k,
        {
            h.append(DROPDOWN_ITEM_1);
            h.append("#");
            h.append(DROPDOWN_ITEM_2);
            h.append(list[k]);
            h.append(DROPDOWN_ITEM_3);
            assert(opts.take(k + 1).drop_last() =~= opts.take(k as int));
            k = k + 1;
        }
        assert(opts.take(list@.len() as int) =~= opts);
        h.append(DROPDOWN_TAIL_1);
        let mut js = String::new();
        js.append(DROPDOWN_JS_0);
        js.append(i);
        js.append(DROPDOWN_JS_1);
        js.append(i);
        js.append(DROPDOWN_JS_2);
        self.leaf(ElType::DDownT, id, h, String::new(), js)
    }

    /// A text field showing `placeholder`; Enter sends what was typed.
    pub fn inputtext_new(&mut self, placeholder: &str) -> (e: Elem)
        requires
            old(self)@.id_count < i32::MAX,
        ensures
            final(self)@ == old(self)@.advance(1),
            e@ == leaf_view(
                ElType::ITextT,
                old(self)@.next_id(1),
                input_html(old(self)@.next_id(1), placeholder@),
                seq![],
                input_js(old(self)@.next_id(1)),
            ),
    {
        let id = self.id_new();
        let i = id.as_str();
        let mut h = String::new();
        h.append(INPUT_HTML_0);
        h.append(i);
        h.append(INPUT_HTML_1);
        h.append(i);
        h.append(INPUT_HTML_2);
        h.append(placeholder);
        h.append(INPUT_HTML_3);
        h.append(i);
        h.append(INPUT_HTML_4);
        let mut js = String::new();
        js.append(INPUT_JS_0);
        js.append(i);
        js.append(INPUT_JS_1);
        js.append(i);
        js.append(INPUT_JS_2);
        js.append(i);
        js.append(INPUT_JS_3);
        self.leaf(ElType::ITextT, id, h, String::new(), js)
    }

    /// A file chooser with a button labelled `text` that sends the chosen
    /// path; its events are handled as those of a text field.
    pub fn file_input_new(&mut self, text: &str) -> (e: Elem)
        requires
            old(self)@.id_count < i32::MAX,
        ensures
            final(self)@ == old(self)@.advance(1),
            e@ == leaf_view(
                ElType::ITextT,
                old(self)@.next_id(1),
                file_input_html(old(self)@.next_id(1), text@),
                seq![],
                file_input_js(old(self)@.next_id(1)),
            ),
    {
        let id = self.id_new();
        let i = id.as_str();
        let mut h = String::new();
        h.append(FILE_INPUT_HTML_0);
        h.append(i);
        h.append(FILE_INPUT_HTML_1);
        h.append(i);
        h.append(FILE_INPUT_HTML_2);
        h.append(text);
        h.append(FILE_INPUT_HTML_3);
        h.append(i);
        h.append(FILE_INPUT_HTML_4);
        h.append(i);
        h.append(FILE_INPUT_HTML_5);
        let mut js = String::new();
        js.append(FILE_INPUT_JS_0);
        js.append(i);
        js.append(FILE_INPUT_JS_1);
        js.append(i);
        js.append(FILE_INPUT_JS_2);
        js.append(i);
        js.append(FILE_INPUT_JS_3);
        self.leaf(ElType::ITextT, id, h, String::new(), js)
    }

    /// Navigation tabs, one per text; the panes of the tabs, in order, are
    /// the sub-elements, and the first tab is the active one.
    pub fn tabs_new(&mut self, texts: Vec<&str>) -> (e: Elem)
        requires
            old(self)@.id_count + texts@.len() <= i32::MAX,
        ensures
            final(self)@ == old(self)@.advance(texts@.len() as int),
            e@ == (ElemView {
                sub_elems: Seq::new(
                    texts@.len(),
                    |k: int| tab_pane(k, old(self)@.next_id(k + 1)),
                ),
                sub_start: "<div class=\"tab-content\">"@,
                sub_end: "</div>"@,
                ..leaf_view(
                    ElType::TabsT,
                    "tabs"@,
                    tabs_html(old(self)@, str_views(texts@)),
                    seq![],
                    seq![],
                )
            }),
    {
        let ghost g0 = self@;
        let n = texts.len();
        let mut ids: Vec<String> = Vec::new();
        let mut k: usize = 0;
        while k < n
            invariant
                k <= n,
                n == texts@.len(),
                g0.id_count + n <= i32::MAX,
                self@ == g0.advance(k as int),
                ids@.len() == k,
                forall|j: int| 0 <= j < k ==> #[trigger] ids@[j]@ == g0.next_id(j + 1),
            decreases n - k,
        {
            let id = self.id_new();
            ids.push(id);
            k = k + 1;
        }
        let ghost tv = str_views(texts@);
        let mut h = String::from_str(TABS_HEAD_0);
        let mut k: usize = 0;
        assert(tv.take(0) =~= Seq::<Seq<char>>::empty());
        while k < n
            invariant
                k <= n,
                n == texts@.len(),
                n == ids@.len(),
                tv == str_views(texts@),
                forall|j: int| 0 <= j < n ==> #[trigger] ids@[j]@ == g0.next_id(j + 1),
                h@ == TABS_HEAD_0@ + tab_items(g0, tv.take(k as int)),
            decreases n - k,
        {
            let mut item = String::from_str(TAB_ITEM_1);
            if k == 0 {
                item.append("active");
            } else {
                item.append("");
            }
            item.append(TAB_ITEM_2);
            item.append("#");
            item.append(ids[k].as_str());
            item.append(TAB_ITEM_4);
            item.append(ids[k].as_str());
            item.append(TAB_ITEM_5);
            item.append(texts[k]);
            item.append(TAB_ITEM_6);
            assert(item@ =~= tab_item(k as int, g0.next_id(k + 1), tv[k as int]));
            let ghost before = h@;
            h.append(item.as_str());
            proof {
                let t1 = tv.take(k + 1);
                assert(t1.drop_last() =~= tv.take(k as int));
                assert(t1.last() == tv[k as int]);
                assert(tab_items(g0, t1) == tab_items(g0, tv.take(k as int)) + tab_item(
                    k as int,
                    g0.next_id(k + 1),
                    tv[k as int],
                ));
                assert(h@ =~= TABS_HEAD_0@ + tab_items(g0, t1));
            }
            k = k + 1;
        }
        assert(tv.take(n as int) =~= tv);
        h.append(TABS_TAIL_1);
        let mut panes: Vec<Elem> = Vec::new();
        let mut k: usize = 0;
        while k < n
            invariant
                k <= n,
                n == ids@.len(),
                forall|j: int| 0 <= j < n ==> #[trigger] ids@[j]@ == g0.next_id(j + 1),
                panes@.len() == k,
                forall|j: int| 0 <= j < k ==> #[trigger] panes@[j]@ == tab_pane(j, g0.next_id(j + 1)),
            decreases n - k,
        {
            let mut p = String::from_str(TAB_PANE_0);
            if k == 0 {
                p.append("show active");
            } else {
                p.append("fade");
            }
            p.append(TAB_PANE_1);
            p.append(ids[k].as_str());
            p.append(TAB_PANE_2);
            let pane = self.leaf(
                ElType::TPaneT,
                ids[k].clone(),
                p,
                String::from_str("</div>"),
                String::new(),
            );
            panes.push(pane);
            k = k + 1;
        }
        let mut tabs = self.leaf(ElType::TabsT, String::from_str("tabs"), h, String::new(), String::new());
        proof {
            lemma_elem_views(panes@);
        }
        assert(elem_views(panes@) =~= Seq::new(n as nat, |k: int| tab_pane(k, g0.next_id(k + 1))));
        tabs.set_sub_elems(
            panes,
            String::from_str("<div class=\"tab-content\">"),
            String::from_str("</div>"),
        );
        tabs
    }

    /// A modal dialog titled `title` showing `text`, with two buttons
    /// (labelled `bt1_text` and `bt2_text`) as its sub-elements, and a
    /// channel on which the answer is reported.
    pub fn modal_new(&mut self, title: &str, text: &str, bt1_text: &str, bt2_text: &str) -> (e:
        Elem)
        requires
            old(self)@.id_count + 2 <= i32::MAX,
        ensures
            final(self)@ == old(self)@.advance(2),
            e@ == (ElemView {
                sub_elems: seq![
                    modal_button(old(self)@.next_id(1)),
                    modal_button(old(self)@.next_id(2)),
                ],
                has_modal_tx: true,
                has_modal_rx: true,
                ..leaf_view(
                    ElType::ModalT,
                    old(self)@.next_id(1) + old(self)@.next_id(2),
                    modal_html(
                        old(self)@.next_id(1),
                        old(self)@.next_id(2),
                        title@,
                        text@,
                        bt1_text@,
                        bt2_text@,
                    ),
                    seq![],
                    modal_js(old(self)@.next_id(1), old(self)@.next_id(2)),
                )
            }),
    {
        let id1 = self.id_new();
        let id2 = self.id_new();
        let a = id1.as_str();
        let b = id2.as_str();
        let mut h = String::new();
        h.append(MODAL_HTML_0);
        h.append(a);
        h.append(b);
        h.append(MODAL_HTML_2);
        h.append(title);
        h.append(MODAL_HTML_3);
        h.append(text);
        h.append(MODAL_HTML_4);
        h.append(a);
        h.append(MODAL_HTML_5);
        h.append(bt1_text);
        h.append(MODAL_HTML_6);
        h.append(b);
        h.append(MODAL_HTML_7);
        h.append(bt2_text);
        h.append(MODAL_HTML_8);
        let mut id = String::from_str(a);
        id.append(b);
        let mut js = String::new();
        js.append(MODAL_JS_0);
        js.append(a);
        js.append(MODAL_JS_1);
        js.append(a);
        js.append(MODAL_JS_2);
        js.append(b);
        js.append(MODAL_JS_3);
        js.append(b);
        js.append(MODAL_JS_4);
        let mut e = self.leaf(ElType::ModalT, id, h, String::new(), js);
        let (tx_modal, rx_modal) = unbounded_channel::<bool>();
        e.set_modal_channel(tx_modal, rx_modal);
        let e1 = Elem::new_leaf(
            ElType::ButtonT,
            id1.clone(),
            String::new(),
            String::new(),
            String::new(),
            None,
        );
        let e2 = Elem::new_leaf(
            ElType::ButtonT,
            id2.clone(),
            String::new(),
            String::new(),
            String::new(),
            None,
        );
        let subs = vec![e1, e2];
        proof {
            lemma_elem_views(subs@);
        }
        assert(elem_views(subs@) =~= seq![
            modal_button(id1@),
            modal_button(id2@),
        ]);
        e.set_sub_elems(subs, String::new(), String::new());
        e
    }

    /// A text area of `rows` rows. Text written to it goes through `tx`
    /// to its own websocket server, already listening on `addr`.
    pub fn textarea_new(&mut self, rows: i32, addr: &str, tx: Sender<String>) -> (e: Elem)
        requires
            old(self)@.id_count < i32::MAX,
        ensures
            final(self)@ == old(self)@.advance(1),
            e@ == (ElemView {
                has_ta_ws: true,
                ..leaf_view(
                    ElType::TextAreaT,
                    old(self)@.next_id(1),
                    textarea_html(old(self)@.next_id(1), rows),
                    seq![],
                    textarea_js(old(self)@.next_id(1), addr@),
                )
            }),
            e.ta_sender() == Some(tx),
    {
        let id = self.id_new();
        let i = id.as_str();
        let r = i32_to_decimal(rows);
        let mut h = String::new();
        h.append(TEXTAREA_HTML_0);
        h.append(i);
        h.append(TEXTAREA_HTML_1);
        h.append(r.as_str());
        h.append(TEXTAREA_HTML_2);
        let mut js = String::new();
        js.append(TEXTAREA_JS_0);
        js.append(i);
        js.append(TEXTAREA_JS_1);
        js.append(addr);
        js.append(TEXTAREA_JS_2);
        js.append(i);
        js.append(TEXTAREA_JS_3);
        js.append(i);
        js.append(TEXTAREA_JS_4);
        let mut e = self.leaf(ElType::TextAreaT, id, h, String::new(), js);
        e.set_text_area_sender(tx);
        e
    }

    /// A container block.
    pub fn container_new(&mut self) -> (e: Elem)
        requires
            old(self)@.id_count < i32::MAX,
        ensures
            final(self)@ == old(self)@.advance(1),
            e@ == leaf_view(
                ElType::ContainerT,
                old(self)@.next_id(1),
                container_start(old(self)@.next_id(1)),
                BLOCK_END_0@,
                seq![],
            ),
    {
        let id = self.id_new();
        let mut h = String::from_str(CONTAINER_START_0);
        h.append(id.as_str());
        h.append(CONTAINER_START_1);
        self.leaf(ElType::ContainerT, id, h, String::from_str(BLOCK_END_0), String::new())
    }

    /// A row of a grid.
    pub fn row_new(&mut self) -> (e: Elem)
        requires
            old(self)@.id_count < i32::MAX,
        ensures
            final(self)@ == old(self)@.advance(1),
            e@ == leaf_view(
                ElType::RowT,
                old(self)@.next_id(1),
                row_start(old(self)@.next_id(1)),
                BLOCK_END_0@,
                seq![],
            ),
    {
        let id = self.id_new();
        let mut h = String::from_str(ROW_START_0);
        h.append(id.as_str());
        h.append(ROW_START_1);
        self.leaf(ElType::RowT, id, h, String::from_str(BLOCK_END_0), String::new())
    }

    /// A column of a grid, as wide as the row leaves it.
    pub fn col_new(&mut self) -> (e: Elem)
        requires
            old(self)@.id_count < i32::MAX,
        ensures
            final(self)@ == old(self)@.advance(1),
            e@ == leaf_view(
                ElType::ColT,
                old(self)@.next_id(1),
                col_start(old(self)@.next_id(1)),
                BLOCK_END_0@,
                seq![],
            ),
    {
        let id = self.id_new();
        let mut h = String::from_str(COL_START_0);
        h.append(id.as_str());
        h.append(COL_START_1);
        self.leaf(ElType::ColT, id, h, String::from_str(BLOCK_END_0), String::new())
    }

    /// A column of a grid spanning `span` of the twelve grid columns.
    pub fn colspan_new(&mut self, span: i32) -> (e: Elem)
        requires
            old(self)@.id_count < i32::MAX,
        ensures
            final(self)@ == old(self)@.advance(1),
            e@ == leaf_view(
                ElType::ColT,
                old(self)@.next_id(1),
                colspan_start(span, old(self)@.next_id(1)),
                COLSPAN_END_0@,
                seq![],
            ),
    {
        let id = self.id_new();
        let s = i32_to_decimal(span);
        let mut h = String::from_str(COLSPAN_START_0);
        h.append(s.as_str());
        h.append(COLSPAN_START_1);
        h.append(id.as_str());
        h.append(COLSPAN_START_2);
        self.leaf(ElType::ColT, id, h, String::from_str(COLSPAN_END_0), String::new())
    }

    /// An image of the file `file_name` in `static/`, of the given size.
    pub fn image_new(&mut self, file_name: &str, width: i32, height: i32) -> (e: Elem)
        requires
            old(self)@.id_count < i32::MAX,
        ensures
            final(self)@ == old(self)@.advance(1),
            e@ == leaf_view(
                ElType::ImageT,
                old(self)@.next_id(1),
                image_html(old(self)@.next_id(1), file_name@, width, height),
                seq![],
                seq![],
            ),
    {
        let id = self.id_new();
        let w = i32_to_decimal(width);
        let ht = i32_to_decimal(height);
        let mut h = String::from_str(IMAGE_HTML_0);
        h.append(id.as_str());
        h.append(IMAGE_HTML_1);
        h.append(file_name);
        h.append(IMAGE_HTML_2);
        h.append(w.as_str());
        h.append(IMAGE_HTML_3);
        h.append(ht.as_str());
        h.append(IMAGE_HTML_4);
        self.leaf(ElType::ImageT, id, h, String::new(), String::new())
    }

    /// A card with a header line and a title.
    pub fn card_new(&mut self, header: &str, title: &str) -> (e: Elem)
        requires
            old(self)@.id_count < i32::MAX,
        ensures
            final(self)@ == old(self)@.advance(1),
            e@ == leaf_view(
                ElType::CardT,
                old(self)@.next_id(1),
                card_start(old(self)@.next_id(1), header@, title@),
                CARD_END_0@,
                seq![],
            ),
    {
        let id = self.id_new();
        let mut h = String::from_str(CARD_START_0);
        h.append(header);
        h.append(CARD_START_1);
        h.append(id.as_str());
        h.append(CARD_START_2);
        h.append(title);
        h.append(CARD_START_3);
        self.leaf(ElType::CardT, id, h, String::from_str(CARD_END_0), String::new())
    }

    /// A group of radio buttons, one per text, whose values are their
    /// positions; the one at `checked_ind` starts checked.
    pub fn radio_new(&mut self, text: &Vec<&str>, checked_ind: i32) -> (e: Elem)
        requires
            text@.len() > 0,
            old(self)@.id_count + text@.len() <= i32::MAX,
        ensures
            final(self)@ == old(self)@.advance(text@.len() as int),
            e@ == leaf_view(
                ElType::RadioT,
                old(self)@.next_id(1) + "radio"@,
                radio_html(old(self)@, str_views(text@), checked_ind),
                seq![],
                radio_js(old(self)@.next_id(1) + "radio"@),
            ),
            0 <= checked_ind < text@.len() ==> contains_text(e@.html, "checked"@),
    {
        let ghost g0 = self@;
        let n = text.len();
        let mut ids: Vec<String> = Vec::new();
        let mut k: usize = 0;
        while k < n
            invariant
                k <= n,
                n == text@.len(),
                g0.id_count + n <= i32::MAX,
                self@ == g0.advance(k as int),
                ids@.len() == k,
                forall|j: int| 0 <= j < k ==> #[trigger] ids@[j]@ == g0.next_id(j + 1),
            decreases n - k,
        {
            let id = self.id_new();
            ids.push(id);
            k = k + 1;
        }
        let mut single = ids[0].clone();
        single.append("radio");
        let s = single.as_str();
        let ghost tv = str_views(text@);
        let mut h = String::new();
        let mut k: usize = 0;
        assert(tv.take(0) =~= Seq::<Seq<char>>::empty());
        while k < n
            invariant
                k <= n,
                n == text@.len(),
                n == ids@.len(),
                tv == str_views(text@),
                s@ == g0.next_id(1) + "radio"@,
                forall|j: int| 0 <= j < n ==> #[trigger] ids@[j]@ == g0.next_id(j + 1),
                h@ == radio_html(g0, tv.take(k as int), checked_ind),
            decreases n - k,
        {
            let ind = usize_to_decimal(k);
            let mut item = String::from_str(RADIO_ITEM_0);
            item.append(h.as_str());
            item.append(RADIO_ITEM_1);
            item.append(ind.as_str());
            item.append(RADIO_ITEM_2);
            item.append(s);
            item.append(RADIO_ITEM_3);
            item.append(ids[k].as_str());
            item.append(RADIO_ITEM_4);
            if checked_ind >= 0 && k == checked_ind as usize {
                item.append("checked");
            } else {
                item.append("");
            }
            item.append(RADIO_ITEM_5);
            item.append(s);
            item.append(RADIO_ITEM_6);
            item.append(ids[k].as_str());
            item.append(RADIO_ITEM_7);
            item.append(text[k]);
            item.append(RADIO_ITEM_8);
            assert(tv.take(k + 1).drop_last() =~= tv.take(k as int));
            assert(tv.take(k + 1).last() == tv[k as int]);
            h = item;
            k = k + 1;
        }
        assert(tv.take(n as int) =~= tv);
        let mut js = String::new();
        js.append(RADIO_JS_0);
        js.append(s);
        js.append(RADIO_JS_1);
        js.append(s);
        js.append(RADIO_JS_2);
        let id = single.clone();
        proof {
            if 0 <= checked_ind < text@.len() {
                law_radio_has_checked(g0, tv, checked_ind);
            }
        }
        self.leaf(ElType::RadioT, id, h, String::new(), js)
    }

    /// A range slider; `initial`, `min`, `max` and `step` are its values
    /// already written as text.
    pub fn rangeslider_new(&mut self, initial: &str, min: &str, max: &str, step: &str) -> (e: Elem)
        requires
            old(self)@.id_count < i32::MAX,
        ensures
            final(self)@ == old(self)@.advance(1),
            e@ == leaf_view(
                ElType::RSliderT,
                old(self)@.next_id(1),
                slider_html(old(self)@.next_id(1), min@, max@, step@),
                seq![],
                slider_js(old(self)@.next_id(1), initial@),
            ),
    {
        let id = self.id_new();
        let i = id.as_str();
        let mut h = String::from_str(SLIDER_HTML_0);
        h.append(i);
        h.append(SLIDER_HTML_1);
        h.append(min);
        h.append(SLIDER_HTML_2);
        h.append(max);
        h.append(SLIDER_HTML_3);
        h.append(step);
        h.append(SLIDER_HTML_4);
        h.append(i);
        h.append(SLIDER_HTML_5);
        let mut js = String::from_str(SLIDER_JS_0);
        js.append(i);
        js.append(SLIDER_JS_1);
        js.append(i);
        js.append(SLIDER_JS_2);
        js.append(i);
        js.append(SLIDER_JS_3);
        js.append(i);
        js.append(SLIDER_JS_4);
        js.append(initial);
        js.append(SLIDER_JS_5);
        self.leaf(ElType::RSliderT, id, h, String::new(), js)
    }

    /// A pill badge of type `b_type` showing `text`.
    pub fn pillbadge_new(&mut self, b_type: &str, text: &str) -> (e: Elem)
        requires
            old(self)@.id_count < i32::MAX,
        ensures
            final(self)@ == old(self)@.advance(1),
            e@ == leaf_view(
                ElType::PBadgeT,
                old(self)@.next_id(1),
                badge_html(old(self)@.next_id(1), b_type@, text@),
                seq![],
                seq![],
            ),
    {
        let id = self.id_new();
        let mut h = String::from_str(BADGE_HTML_0);
        h.append(id.as_str());
        h.append(BADGE_HTML_1);
        h.append(b_type);
        h.append(BADGE_HTML_2);
        h.append(text);
        h.append(BADGE_HTML_3);
        self.leaf(ElType::PBadgeT, id, h, String::new(), String::new())
    }

    /// A paragraph.
    pub fn paragraph_new(&mut self) -> (e: Elem)
        requires
            old(self)@.id_count < i32::MAX,
        ensures
            final(self)@ == old(self)@.advance(1),
            e@ == leaf_view(
                ElType::ParagraphT,
                old(self)@.next_id(1),
                paragraph_start(old(self)@.next_id(1)),
                "</p>"@,
                seq![],
            ),
    {
        let id = self.id_new();
        let mut h = String::from_str(PARAGRAPH_START_0);
        h.append(id.as_str());
        h.append(PARAGRAPH_START_1);
        self.leaf(ElType::ParagraphT, id, h, String::from_str("</p>"), String::new())
    }
}

/// The columns of one grid row: the elements, and the span of each (0 for
/// a column as wide as the row leaves it).
pub struct ColSpans {
    pub elems: Vec<Elem>,
    pub spans: Vec<i32>,
}

pub open spec fn row_elems(cs: ColSpans) -> Seq<ElemView> {
    cs.elems@.map_values(|e: Elem| e@)
}

pub open spec fn grid_col_start(span: i32, id: Seq<char>) -> Seq<char> {
    if span != 0 {
        colspan_start(span, id)
    } else {
        col_start(id)
    }
}

pub open spec fn grid_col_end(span: i32) -> Seq<char> {
    if span != 0 {
        COLSPAN_END_0@
    } else {
        BLOCK_END_0@
    }
}

/// The markup of the first `elems.len()` columns of a grid row, each
/// holding its element; the columns' id numbers follow from `first`.
pub open spec fn grid_cols_html(first: int, elems: Seq<ElemView>, spans: Seq<i32>) -> Seq<char>
    decreases elems.len(),
{
    if elems.len() == 0 {
        seq![]
    } else {
        let j = elems.len() - 1;
        grid_cols_html(first, elems.drop_last(), spans) + grid_col_start(
            spans[j],
            id_text(first + j),
        ) + added_html(elems.last()) + grid_col_end(spans[j])
    }
}

/// The script of the elements of a grid row, in order.
pub open spec fn grid_cols_js(elems: Seq<ElemView>) -> Seq<char>
    decreases elems.len(),
{
    if elems.len() == 0 {
        seq![]
    } else {
        grid_cols_js(elems.drop_last()) + added_js(elems.last())
    }
}

/// How many ids the rows take: one per row and one per column.
pub open spec fn grid_ids(rows: Seq<ColSpans>) -> int
    decreases rows.len(),
{
    if rows.len() == 0 {
        0
    } else {
        grid_ids(rows.drop_last()) + 1 + rows.last().elems@.len()
    }
}

/// The markup of the rows of a grid; the id numbers follow from `first`.
pub open spec fn grid_rows_html(first: int, rows: Seq<ColSpans>) -> Seq<char>
    decreases rows.len(),
{
    if rows.len() == 0 {
        seq![]
    } else {
        let r = rows.last();
        let rid = first + grid_ids(rows.drop_last());
        grid_rows_html(first, rows.drop_last()) + row_start(id_text(rid)) + grid_cols_html(
            rid + 1,
            row_elems(r),
            r.spans@,
        ) + BLOCK_END_0@
    }
}

/// The script of a grid's elements, row by row.
pub open spec fn grid_rows_js(rows: Seq<ColSpans>) -> Seq<char>
    decreases rows.len(),
{
    if rows.len() == 0 {
        seq![]
    } else {
        grid_rows_js(rows.drop_last()) + grid_cols_js(row_elems(rows.last()))
    }
}

/// The script an element brings into a grid: its own, then its
/// sub-elements', read field by field.
proof fn lemma_grid_cols_js(elems: Seq<ElemView>)
    ensures
        grid_cols_js(elems) == elems.map_values(
            |v: ElemView| v.js + v.sub_elems.map_values(|s: ElemView| s.js).flatten(),
        ).flatten(),
    decreases elems.len(),
{
    if elems.len() == 0 {
        assert(elems.map_values(
            |v: ElemView| v.js + v.sub_elems.map_values(|s: ElemView| s.js).flatten(),
        ) =~= Seq::<Seq<char>>::empty());
    } else {
        let d = elems.drop_last();
        let l = elems.last();
        lemma_grid_cols_js(d);
        crate::elem::law_add_appends(l);
        assert(elems.map_values(
            |v: ElemView| v.js + v.sub_elems.map_values(|s: ElemView| s.js).flatten(),
        ) =~= d.map_values(
            |v: ElemView| v.js + v.sub_elems.map_values(|s: ElemView| s.js).flatten(),
        ).push(l.js + l.sub_elems.map_values(|s: ElemView| s.js).flatten()));
        d.map_values(
            |v: ElemView| v.js + v.sub_elems.map_values(|s: ElemView| s.js).flatten(),
        ).lemma_flatten_push(l.js + l.sub_elems.map_values(|s: ElemView| s.js).flatten());
    }
}

/// A grid's script is, row by row and column by column, each element's
/// script followed by the scripts of its sub-elements.
pub proof fn law_grid_script(rows: Seq<ColSpans>)
    ensures
        grid_rows_js(rows) == rows.map_values(
            |r: ColSpans|
                r.elems@.map_values(
                    |x: Elem| x@.js + x@.sub_elems.map_values(|s: ElemView| s.js).flatten(),
                ).flatten(),
        ).flatten(),
    decreases rows.len(),
{
    if rows.len() == 0 {
        assert(rows.map_values(
            |r: ColSpans|
                r.elems@.map_values(
                    |x: Elem| x@.js + x@.sub_elems.map_values(|s: ElemView| s.js).flatten(),
                ).flatten(),
        ) =~= Seq::<Seq<char>>::empty());
    } else {
        let d = rows.drop_last();
        let l = rows.last();
        law_grid_script(d);
        lemma_grid_cols_js(row_elems(l));
        assert(row_elems(l).map_values(
            |v: ElemView| v.js + v.sub_elems.map_values(|s: ElemView| s.js).flatten(),
        ) =~= l.elems@.map_values(
            |x: Elem| x@.js + x@.sub_elems.map_values(|s: ElemView| s.js).flatten(),
        ));
        assert(rows.map_values(
            |r: ColSpans|
                r.elems@.map_values(
                    |x: Elem| x@.js + x@.sub_elems.map_values(|s: ElemView| s.js).flatten(),
                ).flatten(),
        ) =~= d.map_values(
            |r: ColSpans|
                r.elems@.map_values(
                    |x: Elem| x@.js + x@.sub_elems.map_values(|s: ElemView| s.js).flatten(),
                ).flatten(),
        ).push(
            l.elems@.map_values(
                |x: Elem| x@.js + x@.sub_elems.map_values(|s: ElemView| s.js).flatten(),
            ).flatten(),
        ));
        d.map_values(
            |r: ColSpans|
                r.elems@.map_values(
                    |x: Elem| x@.js + x@.sub_elems.map_values(|s: ElemView| s.js).flatten(),
                ).flatten(),
        ).lemma_flatten_push(
            l.elems@.map_values(
                |x: Elem| x@.js + x@.sub_elems.map_values(|s: ElemView| s.js).flatten(),
            ).flatten(),
        );
    }
}

proof fn lemma_contains_before(b: Seq<char>, c: Seq<char>, w: Seq<char>)
    requires
        contains_text(b, w),
    ensures
        contains_text(b + c, w),
{
    let i = choose|i: int| 0 <= i && i + w.len() <= b.len() && #[trigger] b.subrange(i, i + w.len()) == w;
    assert((b + c).subrange(i, i + w.len()) =~= b.subrange(i, i + w.len()));
}

proof fn lemma_contains_after(a: Seq<char>, b: Seq<char>, w: Seq<char>)
    requires
        contains_text(b, w),
    ensures
        contains_text(a + b, w),
{
    let i = choose|i: int| 0 <= i && i + w.len() <= b.len() && #[trigger] b.subrange(i, i + w.len()) == w;
    let j = a.len() + i;
    assert((a + b).subrange(j, j + w.len()) =~= b.subrange(i, i + w.len()));
}

proof fn lemma_grid_cols_markup(first: int, elems: Seq<ElemView>, spans: Seq<i32>, c: int)
    requires
        0 <= c < elems.len(),
    ensures
        contains_text(grid_cols_html(first, elems, spans), added_html(elems[c])),
    decreases elems.len(),
{
    let j = elems.len() - 1;
    let d = elems.drop_last();
    let start = grid_cols_html(first, d, spans) + grid_col_start(spans[j], id_text(first + j));
    if c == j {
        lemma_contains_at(start, added_html(elems[c]), grid_col_end(spans[j]));
    } else {
        lemma_grid_cols_markup(first, d, spans, c);
        assert(d[c] == elems[c]);
        lemma_contains_before(
            grid_cols_html(first, d, spans),
            grid_col_start(spans[j], id_text(first + j)),
            added_html(elems[c]),
        );
        lemma_contains_before(start, added_html(elems.last()), added_html(elems[c]));
        lemma_contains_before(
            start + added_html(elems.last()),
            grid_col_end(spans[j]),
            added_html(elems[c]),
        );
    }
}

/// Every element placed in a grid brings its whole markup into the
/// grid's markup: its own markup and closing markup, and its sub-elements
/// between its `sub_start` and `sub_end`.
pub proof fn law_grid_markup(first: int, rows: Seq<ColSpans>, r: int, c: int)
    requires
        0 <= r < rows.len(),
        0 <= c < rows[r].elems@.len(),
    ensures
        contains_text(grid_rows_html(first, rows), added_html(rows[r].elems@[c]@)),
    decreases rows.len(),
{
    let k = rows.len() - 1;
    let d = rows.drop_last();
    let w = added_html(rows[r].elems@[c]@);
    let rid = first + grid_ids(d);
    let pre = grid_rows_html(first, d) + row_start(id_text(rid));
    let cols = grid_cols_html(rid + 1, row_elems(rows.last()), rows.last().spans@);
    if r == k {
        lemma_grid_cols_markup(rid + 1, row_elems(rows.last()), rows.last().spans@, c);
        assert(row_elems(rows.last())[c] == rows[r].elems@[c]@);
        lemma_contains_after(pre, cols, w);
        lemma_contains_before(pre + cols, BLOCK_END_0@, w);
    } else {
        law_grid_markup(first, d, r, c);
        assert(d[r] == rows[r]);
        lemma_contains_before(grid_rows_html(first, d), row_start(id_text(rid)), w);
        lemma_contains_before(pre, cols, w);
        lemma_contains_before(pre + cols, BLOCK_END_0@, w);
    }
}

pub proof fn lemma_grid_ids_prefix(rows: Seq<ColSpans>, k: int)
    requires
        0 <= k <= rows.len(),
    ensures
        0 <= grid_ids(rows.take(k)) <= grid_ids(rows),
    decreases rows.len(),
{
    if k == rows.len() {
        assert(rows.take(k) =~= rows);
        lemma_grid_ids_nonneg(rows);
    } else {
        assert(rows.drop_last().take(k) =~= rows.take(k));
        lemma_grid_ids_prefix(rows.drop_last(), k);
    }
}

pub proof fn lemma_grid_ids_nonneg(rows: Seq<ColSpans>)
    ensures
        grid_ids(rows) >= 0,
    decreases rows.len(),
{
    if rows.len() > 0 {
        lemma_grid_ids_nonneg(rows.drop_last());
    }
}

impl GuiCfg {
    /// A container holding a grid: one row per `ColSpans`, each with one
    /// column per element, of the given span (`colspan_new`) or, for span
    /// 0, as wide as the row leaves it (`col_new`).
    pub fn grid_new(&mut self, col_spans: Vec<ColSpans>) -> (e: Elem)
        requires
            forall|r: int|
                0 <= r < col_spans@.len() ==> #[trigger] col_spans@[r].spans@.len()
                    >= col_spans@[r].elems@.len(),
            old(self)@.id_count + 1 + grid_ids(col_spans@) <= i32::MAX,
        ensures
            final(self)@ == old(self)@.advance(1 + grid_ids(col_spans@)),
            e@ == (ElemView {
                html: container_start(old(self)@.next_id(1)) + grid_rows_html(
                    old(self)@.id_count + 2,
                    col_spans@,
                ),
                js: grid_rows_js(col_spans@),
                ..leaf_view(
                    ElType::ContainerT,
                    old(self)@.next_id(1),
                    container_start(old(self)@.next_id(1)),
                    BLOCK_END_0@,
                    seq![],
                )
            }),
            forall|r: int, c: int|
                0 <= r < col_spans@.len() && 0 <= c < col_spans@[r].elems@.len() ==> contains_text(
                    e@.html,
                    #[trigger] added_html(col_spans@[r].elems@[c]@),
                ),
            e@.js == col_spans@.map_values(
                |r: ColSpans|
                    r.elems@.map_values(
                        |x: Elem| x@.js + x@.sub_elems.map_values(|s: ElemView| s.js).flatten(),
                    ).flatten(),
            ).flatten(),
    {
        let ghost g0 = self@;
        let ghost rows = col_spans@;
        let ghost base = leaf_view(
            ElType::ContainerT,
            g0.next_id(1),
            container_start(g0.next_id(1)),
            BLOCK_END_0@,
            seq![],
        );
        proof {
            lemma_grid_ids_nonneg(rows);
        }
        let mut ct = self.container_new();
        let mut r: usize = 0;
        assert(rows.take(0) =~= Seq::<ColSpans>::empty());
        while r < col_spans.len()
            invariant
                r <= rows.len(),
                rows == col_spans@,
                forall|q: int| 0 <= q < rows.len() ==> #[trigger] rows[q].spans@.len() >= rows[q].elems@.len(),
                g0.id_count + 1 + grid_ids(rows) <= i32::MAX,
                self@ == g0.advance(1 + grid_ids(rows.take(r as int))),
                ct@ == (ElemView {
                    html: container_start(g0.next_id(1)) + grid_rows_html(
                        g0.id_count + 2,
                        rows.take(r as int),
                    ),
                    js: grid_rows_js(rows.take(r as int)),
                    ..base
                }),
            decreases rows.len() - r,
        {
            let cs = &col_spans[r];
            let ghost prev_rows = rows.take(r as int);
            let ghost rid = g0.id_count + 1 + grid_ids(prev_rows) + 1;
            let ghost elems = row_elems(*cs);
            proof {
                lemma_grid_ids_prefix(rows, r + 1);
                assert(rows.take(r + 1).drop_last() =~= prev_rows);
                assert(rows.take(r + 1).last() == *cs);
            }
            let mut row = self.row_new();
            let ghost row_base = leaf_view(
                ElType::RowT,
                id_text(rid),
                row_start(id_text(rid)),
                BLOCK_END_0@,
                seq![],
            );
            let mut j: usize = 0;
            assert(elems.take(0) =~= Seq::<ElemView>::empty());
            while j < cs.elems.len()
                invariant
                    j <= cs.elems@.len(),
                    cs.spans@.len() >= cs.elems@.len(),
                    elems == row_elems(*cs),
                    rid + cs.elems@.len() <= i32::MAX,
                    self@ == g0.advance(rid - g0.id_count + j),
                    row@ == (ElemView {
                        html: row_start(id_text(rid)) + grid_cols_html(
                            rid + 1,
                            elems.take(j as int),
                            cs.spans@,
                        ),
                        js: grid_cols_js(elems.take(j as int)),
                        ..row_base
                    }),
                decreases cs.elems@.len() - j,
            {
                let elem = &cs.elems[j];
                let span = cs.spans[j];
                let mut col = if span != 0 {
                    self.colspan_new(span)
                } else {
                    self.col_new()
                };
                col.add(elem);
                proof {
                    assert(subs_html(Seq::<ElemView>::empty()) == Seq::<char>::empty());
                    assert(subs_js(Seq::<ElemView>::empty()) == Seq::<char>::empty());
                    assert(elems[j as int] == elem@);
                }
                let ghost before_html = row@.html;
                row.add(&col);
                proof {
                    let t1 = elems.take(j + 1);
                    assert(t1.drop_last() =~= elems.take(j as int));
                    assert(t1.last() == elem@);
                    assert(added_html(col@) =~= grid_col_start(span, id_text(rid + 1 + j))
                        + added_html(elem@) + grid_col_end(span));
                    assert(added_js(col@) =~= added_js(elem@));
                    assert(row@.html =~= row_start(id_text(rid)) + grid_cols_html(
                        rid + 1,
                        t1,
                        cs.spans@,
                    ));
                    assert(row@.js =~= grid_cols_js(t1));
                }
                j = j + 1;
            }
            assert(elems.take(cs.elems@.len() as int) =~= elems);
            ct.add(&row);
            proof {
                assert(subs_html(Seq::<ElemView>::empty()) == Seq::<char>::empty());
                assert(subs_js(Seq::<ElemView>::empty()) == Seq::<char>::empty());
                let t1 = rows.take(r + 1);
                assert(ct@.html =~= container_start(g0.next_id(1)) + grid_rows_html(
                    g0.id_count + 2,
                    t1,
                ));
                assert(ct@.js =~= grid_rows_js(t1));
            }
            r = r + 1;
        }
        assert(rows.take(rows.len() as int) =~= rows);
        proof {
            law_grid_script(rows);
            assert forall|r: int, c: int|
                0 <= r < rows.len() && 0 <= c < rows[r].elems@.len() implies contains_text(
                    ct@.html,
                    #[trigger] added_html(rows[r].elems@[c]@),
                ) by {
                law_grid_markup(g0.id_count + 2, rows, r, c);
                lemma_contains_after(
                    container_start(g0.next_id(1)),
                    grid_rows_html(g0.id_count + 2, rows),
                    added_html(rows[r].elems@[c]@),
                );
            }
        }
        ct
    }
}

} // verus!
