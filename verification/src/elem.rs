//! Page elements: their markup and script, how elements nest, their
//! styling, and the messages they send to the browser while the page runs.
use crate::channel::{clone_receiver_opt, clone_sender_opt, receive_message, send_message};
use crate::templates::{BG_COLOR_BODY_0, BG_COLOR_BODY_1, BG_COLOR_ELEM_0, BG_COLOR_ELEM_1, BG_COLOR_ELEM_2, BG_IMAGE_BODY_0, BG_IMAGE_BODY_1, BG_IMAGE_BODY_3, BG_IMAGE_ELEM_0, BG_IMAGE_ELEM_1, BG_IMAGE_ELEM_2, BG_IMAGE_ELEM_4, COLOR_JS_0, COLOR_JS_1, COLOR_JS_2, FONT_FAMILY_JS_0, FONT_FAMILY_JS_1, FONT_FAMILY_JS_2, FONT_SIZE_JS_0, FONT_SIZE_JS_1, FONT_SIZE_JS_2};
use crate::text::{decimal, i32_to_decimal, signed_decimal, string_views, usize_to_decimal};
use crossbeam_channel::{Receiver, Sender};
use vstd::prelude::*;
use vstd::string::*;

verus! {

/// The kind of an element; it decides how styling and events are handled.
#[derive(Debug, Clone, Copy, PartialEq, Eq, Structural)]
pub enum ElType {
    ButtonT,
    TextAreaT,
    LabelT,
    RowT,
    ColT,
    BodyT,
    ITextT,
    TabsT,
    TPaneT,
    ParagraphT,
    DDownT,
    CardT,
    ModalT,
    ImageT,
    RSliderT,
    PBadgeT,
    RadioT,
    ContainerT,
    FileInputT,
}

impl Default for ElType {
    fn default() -> (r: Self)
        ensures
            r == ElType::BodyT,
    {
        ElType::BodyT
    }
}

/// An element as the contracts see it: its strings, its sub-elements, and
/// which of its channel ends are present.
pub struct ElemView {
    pub el_type: ElType,
    pub h_start: Seq<char>,
    pub h_end: Seq<char>,
    pub html: Seq<char>,
    pub js: Seq<char>,
    pub id: Seq<char>,
    pub sub_elems: Seq<ElemView>,
    pub sub_start: Seq<char>,
    pub sub_end: Seq<char>,
    pub has_ws: bool,
    pub has_ta_ws: bool,
    pub has_modal_tx: bool,
    pub has_modal_rx: bool,
}

/// A UI element: the HTML it contributes to the page (`html`, closed by
/// `h_end`), the script it needs (`js`), and the sub-elements that are
/// placed between `sub_start` and `sub_end` when it is added to a parent.
#[derive(Debug)]
pub struct Elem {
    el_type: ElType,
    h_start: String,
    h_end: String,
    html: String,
    js: String,
    id: String,
    pub sub_elems: Vec<Elem>,
    sub_start: String,
    sub_end: String,
    tx_ws: Option<Sender<String>>,
    tx_ws_for_ta: Option<Sender<String>>,
    pub tx_modal: Option<Sender<bool>>,
    pub rx_modal: Option<Receiver<bool>>,
}

pub closed spec fn elem_view(e: Elem) -> ElemView
    decreases e, 0int,
{
    ElemView {
        el_type: e.el_type,
        h_start: e.h_start@,
        h_end: e.h_end@,
        html: e.html@,
        js: e.js@,
        id: e.id@,
        sub_elems: elem_views(e.sub_elems@),
        sub_start: e.sub_start@,
        sub_end: e.sub_end@,
        has_ws: e.tx_ws is Some,
        has_ta_ws: e.tx_ws_for_ta is Some,
        has_modal_tx: e.tx_modal is Some,
        has_modal_rx: e.rx_modal is Some,
    }
}

/// The views of a sequence of elements, one for one.
pub closed spec fn elem_views(s: Seq<Elem>) -> Seq<ElemView>
    decreases s, 1int,
{
    if s.len() == 0 {
        seq![]
    } else {
        elem_views(s.drop_last()).push(elem_view(s.last()))
    }
}

impl View for Elem {
    type V = ElemView;

    closed spec fn view(&self) -> ElemView {
        elem_view(*self)
    }
}

pub proof fn lemma_elem_views(s: Seq<Elem>)
    ensures
        elem_views(s).len() == s.len(),
        forall|i: int| 0 <= i < s.len() ==> #[trigger] elem_views(s)[i] == s[i]@,
    decreases s.len(),
{
    if s.len() > 0 {
        lemma_elem_views(s.drop_last());
        assert forall|i: int| 0 <= i < s.len() implies #[trigger] elem_views(s)[i] == s[i]@ by {
            if i < s.len() - 1 {
                assert(s.drop_last()[i] == s[i]);
            }
        }
    }
}

/// The view of an element's sub-elements is the sequence of their views.
proof fn lemma_sub_elems_view(e: &Elem)
    ensures
        e@.sub_elems.len() == e.sub_elems@.len(),
        forall|i: int| 0 <= i < e.sub_elems@.len() ==> #[trigger] e@.sub_elems[i] == e.sub_elems@[i]@,
{
    lemma_elem_views(e.sub_elems@);
}

/// A freshly built element of kind `t` with the given id and strings, no
/// sub-elements, and a sending end to the websocket thread.
pub open spec fn leaf_view(
    t: ElType,
    id: Seq<char>,
    h_start: Seq<char>,
    h_end: Seq<char>,
    js: Seq<char>,
) -> ElemView {
    ElemView {
        el_type: t,
        h_start: h_start,
        h_end: h_end,
        html: h_start,
        js: js,
        id: id,
        sub_elems: seq![],
        sub_start: seq![],
        sub_end: seq![],
        has_ws: true,
        has_ta_ws: false,
        has_modal_tx: false,
        has_modal_rx: false,
    }
}

/// What `Elem::default()` is.
pub open spec fn default_view() -> ElemView {
    ElemView {
        el_type: ElType::BodyT,
        h_start: seq![],
        h_end: seq![],
        html: seq![],
        js: seq![],
        id: seq![],
        sub_elems: seq![],
        sub_start: seq![],
        sub_end: seq![],
        has_ws: false,
        has_ta_ws: false,
        has_modal_tx: false,
        has_modal_rx: false,
    }
}

/// The markup of the sub-elements: each one's `html` followed by its `h_end`.
pub open spec fn subs_html(s: Seq<ElemView>) -> Seq<char>
    decreases s.len(),
{
    if s.len() == 0 {
        seq![]
    } else {
        subs_html(s.drop_last()) + s.last().html + s.last().h_end
    }
}

/// The script of the sub-elements, in order.
pub open spec fn subs_js(s: Seq<ElemView>) -> Seq<char>
    decreases s.len(),
{
    if s.len() == 0 {
        seq![]
    } else {
        subs_js(s.drop_last()) + s.last().js
    }
}

/// The sub-elements' scripts and markup, read field by field, are what
/// `subs_js` and `subs_html` give.
proof fn lemma_subs_flatten(s: Seq<ElemView>)
    ensures
        subs_js(s) == s.map_values(|v: ElemView| v.js).flatten(),
        subs_html(s) == s.map_values(|v: ElemView| v.html + v.h_end).flatten(),
    decreases s.len(),
{
    if s.len() == 0 {
        assert(s.map_values(|v: ElemView| v.js) =~= Seq::<Seq<char>>::empty());
        assert(s.map_values(|v: ElemView| v.html + v.h_end) =~= Seq::<Seq<char>>::empty());
    } else {
        let d = s.drop_last();
        lemma_subs_flatten(d);
        assert(s.map_values(|v: ElemView| v.js) =~= d.map_values(|v: ElemView| v.js).push(
            s.last().js,
        ));
        assert(s.map_values(|v: ElemView| v.html + v.h_end) =~= d.map_values(
            |v: ElemView| v.html + v.h_end,
        ).push(s.last().html + s.last().h_end));
        d.map_values(|v: ElemView| v.js).lemma_flatten_push(s.last().js);
        d.map_values(|v: ElemView| v.html + v.h_end).lemma_flatten_push(
            s.last().html + s.last().h_end,
        );
    }
}

/// Each part of `parts` stands in their concatenation, after the parts
/// before it.
pub proof fn lemma_flatten_part(parts: Seq<Seq<char>>, i: int)
    requires
        0 <= i < parts.len(),
    ensures
        parts.take(i).flatten().len() + parts[i].len() <= parts.flatten().len(),
        parts.flatten().subrange(
            parts.take(i).flatten().len() as int,
            (parts.take(i).flatten().len() + parts[i].len()) as int,
        ) == parts[i],
{
    let pre = parts.take(i);
    let post = parts.skip(i + 1);
    assert(parts =~= pre + seq![parts[i]] + post);
    vstd::seq_lib::lemma_flatten_concat(pre + seq![parts[i]], post);
    vstd::seq_lib::lemma_flatten_concat(pre, seq![parts[i]]);
    seq![parts[i]].lemma_flatten_one_element();
    assert(parts.flatten() =~= pre.flatten() + parts[i] + post.flatten());
    assert(parts.flatten().subrange(
        pre.flatten().len() as int,
        (pre.flatten().len() + parts[i].len()) as int,
    ) =~= parts[i]);
}

/// What adding an element appends to the parent's script: the element's
/// own script, then the script of each of its sub-elements, in order; so
/// the script of every sub-element stands in it. And to the parent's
/// markup: the element's markup and closing markup, its `sub_start`, the
/// markup and closing markup of each sub-element in order, its `sub_end`.
pub proof fn law_add_appends(n: ElemView)
    ensures
        added_js(n) == n.js + n.sub_elems.map_values(|s: ElemView| s.js).flatten(),
        added_html(n) == n.html + n.h_end + n.sub_start + n.sub_elems.map_values(
            |s: ElemView| s.html + s.h_end,
        ).flatten() + n.sub_end,
        forall|i: int|
            #![trigger n.sub_elems[i]]
            0 <= i < n.sub_elems.len() ==> exists|off: int|
                n.js.len() <= off && off + n.sub_elems[i].js.len() <= added_js(n).len()
                    && #[trigger] added_js(n).subrange(off, off + n.sub_elems[i].js.len())
                    == n.sub_elems[i].js,
{
    lemma_subs_flatten(n.sub_elems);
    let parts = n.sub_elems.map_values(|s: ElemView| s.js);
    assert forall|i: int| #![trigger n.sub_elems[i]] 0 <= i < n.sub_elems.len() implies exists|off: int|
        n.js.len() <= off && off + n.sub_elems[i].js.len() <= added_js(n).len()
            && #[trigger] added_js(n).subrange(off, off + n.sub_elems[i].js.len())
            == n.sub_elems[i].js by {
        lemma_flatten_part(parts, i);
        let off: int = (n.js.len() + parts.take(i).flatten().len()) as int;
        assert(parts[i] == n.sub_elems[i].js);
        assert(added_js(n).subrange(off, off + n.sub_elems[i].js.len()) =~= parts.flatten().subrange(
            parts.take(i).flatten().len() as int,
            (parts.take(i).flatten().len() + parts[i].len()) as int,
        ));
    }
}

/// The markup that adding `n` to a parent appends to the parent's.
pub open spec fn added_html(n: ElemView) -> Seq<char> {
    n.html + n.h_end + n.sub_start + subs_html(n.sub_elems) + n.sub_end
}

/// The script that adding `n` to a parent appends to the parent's.
pub open spec fn added_js(n: ElemView) -> Seq<char> {
    n.js + subs_js(n.sub_elems)
}

/// The script that `set_background_image` appends.
pub open spec fn background_image_js(v: ElemView, filename: Seq<char>, opacity: int) -> Seq<
    char,
> {
    if v.el_type == ElType::BodyT {
        BG_IMAGE_BODY_0@ + filename + BG_IMAGE_BODY_1@ + signed_decimal(opacity) + "%"@
            + BG_IMAGE_BODY_3@
    } else {
        BG_IMAGE_ELEM_0@ + v.id + BG_IMAGE_ELEM_1@ + filename + BG_IMAGE_ELEM_2@ + signed_decimal(
            opacity,
        ) + "%"@ + BG_IMAGE_ELEM_4@
    }
}

/// The script that `set_background_color` appends.
pub open spec fn background_color_js(v: ElemView, color: Seq<char>) -> Seq<char> {
    if v.el_type == ElType::BodyT {
        BG_COLOR_BODY_0@ + color + BG_COLOR_BODY_1@
    } else {
        BG_COLOR_ELEM_0@ + v.id + BG_COLOR_ELEM_1@ + color + BG_COLOR_ELEM_2@
    }
}

pub open spec fn color_js(id: Seq<char>, color: Seq<char>) -> Seq<char> {
    COLOR_JS_0@ + id + COLOR_JS_1@ + color + COLOR_JS_2@
}

pub open spec fn font_size_js(id: Seq<char>, size: Seq<char>) -> Seq<char> {
    FONT_SIZE_JS_0@ + id + FONT_SIZE_JS_1@ + size + FONT_SIZE_JS_2@
}

pub open spec fn font_family_js(id: Seq<char>, family: Seq<char>) -> Seq<char> {
    FONT_FAMILY_JS_0@ + id + FONT_FAMILY_JS_1@ + family + FONT_FAMILY_JS_2@
}

/// A command that a running page carries out on one of its elements.
pub enum UiCommand<'a> {
    Disable,
    Enable,
    Click,
    Image(&'a str),
    Text(&'a str),
    FontFamily(&'a str),
    FontSize(&'a str),
    Color(&'a str),
    BackgroundColor(&'a str),
    ModalShow,
    RedrawY(&'a Vec<String>),
    RedrawXsY(&'a Vec<String>, &'a Vec<String>),
}

/// Each part preceded by `@`, all run together.
pub open spec fn at_joined(parts: Seq<Seq<char>>) -> Seq<char>
    decreases parts.len(),
{
    if parts.len() == 0 {
        seq![]
    } else {
        at_joined(parts.drop_last()) + "@"@ + parts.last()
    }
}

/// The websocket message that carries `cmd` for the element with id `id`
/// and kind `t`: the command's key, `@`, the target id, then its argument.
pub open spec fn command_message(id: Seq<char>, t: ElType, cmd: UiCommand) -> Seq<char> {
    match cmd {
        UiCommand::Disable => "ENABLE@"@ + id + "@"@ + "DISABLE"@,
        UiCommand::Enable => "ENABLE@"@ + id + "@"@ + "ENABLE"@,
        UiCommand::Click => "CLICK@"@ + id,
        UiCommand::Image(f) => "IMAGE@"@ + id + "@"@ + f@,
        UiCommand::Text(x) => if t == ElType::ButtonT {
            "TEXT@"@ + id + "text@"@ + x@
        } else {
            "TEXT@"@ + id + "@"@ + x@
        },
        UiCommand::FontFamily(x) => "FONTFAMILY@"@ + id + "@"@ + x@,
        UiCommand::FontSize(x) => "FONTSIZE@"@ + id + "@"@ + x@,
        UiCommand::Color(x) => "COLOR@"@ + id + "@"@ + x@,
        UiCommand::BackgroundColor(x) => "BCOLOR@"@ + id + "@"@ + x@,
        UiCommand::ModalShow => "MODALSHOW@"@ + id + "@"@ + "dummy"@,
        UiCommand::RedrawY(ys) => "PREDRAWY@"@ + id + "@"@ + decimal(ys@.len()) + at_joined(
            string_views(ys@),
        ),
        UiCommand::RedrawXsY(xs, ys) => "PREDRAWXSY@"@ + id + "@"@ + decimal(ys@.len())
            + at_joined(string_views(ys@)) + at_joined(string_views(xs@)),
    }
}

/// The answer of a modal dialog, given what its channel delivered: the
/// answer sent, or `false` when the channel was closed.
pub fn modal_answer(received: Option<bool>) -> (flag: bool)
    ensures
        flag == (received == Some(true)),
{
    match received {
        Some(b) => b,
        None => false,
    }
}

/// Appends `@` and each of `parts` to `s`.
fn append_at_joined(s: &mut String, parts: &Vec<String>)
    ensures
        final(s)@ == old(s)@ + at_joined(string_views(parts@)),
{
    let ghost start = s@;
    let ghost views = string_views(parts@);
    let mut i: usize = 0;
    assert(views.take(0) =~= Seq::<Seq<char>>::empty());
    while i < parts.len()
        invariant
            i <= parts@.len(),
            views == string_views(parts@),
            s@ == start + at_joined(views.take(i as int)),
        decreases parts@.len() - i,
    {
        s.append("@");
        s.append(parts[i].as_str());
        assert(views.take(i + 1).drop_last() =~= views.take(i as int));
        i = i + 1;
    }
    assert(views.take(parts@.len() as int) =~= views);
}

impl Default for Elem {
    fn default() -> (e: Elem)
        ensures
            e@ == default_view(),
    {
        let e = Elem {
            el_type: ElType::BodyT,
            h_start: String::new(),
            h_end: String::new(),
            html: String::new(),
            js: String::new(),
            id: String::new(),
            sub_elems: Vec::new(),
            sub_start: String::new(),
            sub_end: String::new(),
            tx_ws: None,
            tx_ws_for_ta: None,
            tx_modal: None,
            rx_modal: None,
        };
        proof {
            lemma_elem_views(e.sub_elems@);
        }
        assert(e@.sub_elems =~= Seq::<ElemView>::empty());
        e
    }
}

fn clone_elem(e: &Elem) -> (r: Elem)
    ensures
        r@ == e@,
    decreases e,
{
    let mut subs: Vec<Elem> = Vec::new();
    let mut i: usize = 0;
    while i < e.sub_elems.len()
        invariant
            i <= e.sub_elems@.len(),
            subs@.len() == i,
            forall|j: int| 0 <= j < i ==> #[trigger] subs@[j]@ == e.sub_elems@[j]@,
        decreases e.sub_elems@.len() - i,
    {
        assert(decreases_to!(e => e.sub_elems@[i as int]));
        let c = clone_elem(&e.sub_elems[i]);
        subs.push(c);
        i = i + 1;
    }
    let r = Elem {
        el_type: e.el_type,
        h_start: e.h_start.clone(),
        h_end: e.h_end.clone(),
        html: e.html.clone(),
        js: e.js.clone(),
        id: e.id.clone(),
        sub_elems: subs,
        sub_start: e.sub_start.clone(),
        sub_end: e.sub_end.clone(),
        tx_ws: clone_sender_opt(&e.tx_ws),
        tx_ws_for_ta: clone_sender_opt(&e.tx_ws_for_ta),
        tx_modal: clone_sender_opt(&e.tx_modal),
        rx_modal: clone_receiver_opt(&e.rx_modal),
    };
    proof {
        lemma_elem_views(r.sub_elems@);
        lemma_elem_views(e.sub_elems@);
        assert(r@.sub_elems =~= e@.sub_elems);
    }
    r
}

impl Clone for Elem {
    /// A copy with the same strings and sub-elements, whose channel ends
    /// are further ends of the same channels.
    fn clone(&self) -> (r: Self)
        ensures
            r@ == self@,
    {
        clone_elem(self)
    }
}

impl Elem {
    /// A new element of kind `t` with the given id and strings, no
    /// sub-elements, and the given sending end to the websocket thread.
    pub(crate) fn new_leaf(
        t: ElType,
        id: String,
        h_start: String,
        h_end: String,
        js: String,
        tx_ws: Option<Sender<String>>,
    ) -> (e: Elem)
        ensures
            e@ == (ElemView { has_ws: tx_ws is Some, ..leaf_view(t, id@, h_start@, h_end@, js@) }),
    {
        let html = h_start.clone();
        let e = Elem {
            el_type: t,
            h_start: h_start,
            h_end: h_end,
            html: html,
            js: js,
            id: id,
            sub_elems: Vec::new(),
            sub_start: String::new(),
            sub_end: String::new(),
            tx_ws: tx_ws,
            tx_ws_for_ta: None,
            tx_modal: None,
            rx_modal: None,
        };
        proof {
            lemma_elem_views(e.sub_elems@);
        }
        assert(e@.sub_elems =~= Seq::<ElemView>::empty());
        e
    }

    /// The element's id.
    pub fn id_str(&self) -> (r: &str)
        ensures
            r@ == self@.id,
    {
        self.id.as_str()
    }

    /// The element's markup.
    pub fn html(&self) -> (r: &str)
        ensures
            r@ == self@.html,
    {
        self.html.as_str()
    }

    /// The markup that closes the element.
    pub fn h_end(&self) -> (r: &str)
        ensures
            r@ == self@.h_end,
    {
        self.h_end.as_str()
    }

    /// The element's script.
    pub fn js(&self) -> (r: &str)
        ensures
            r@ == self@.js,
    {
        self.js.as_str()
    }

    /// Whether the element can send to the running page.
    pub fn can_send(&self) -> (r: bool)
        ensures
            r == self@.has_ws,
    {
        self.tx_ws.is_some()
    }

    /// The element's kind.
    pub fn kind(&self) -> (t: ElType)
        ensures
            t == self@.el_type,
    {
        self.el_type
    }

    /// Places `subs` under this element, between `sub_start` and `sub_end`.
    pub(crate) fn set_sub_elems(&mut self, subs: Vec<Elem>, sub_start: String, sub_end: String)
        ensures
            final(self)@ == (ElemView {
                sub_elems: elem_views(subs@),
                sub_start: sub_start@,
                sub_end: sub_end@,
                ..old(self)@
            }),
    {
        self.sub_elems = subs;
        self.sub_start = sub_start;
        self.sub_end = sub_end;
    }

    /// The sending end through which text written to a text area leaves.
    pub closed spec fn ta_sender(&self) -> Option<Sender<String>> {
        self.tx_ws_for_ta
    }

    /// Gives a text area its own sending end.
    pub(crate) fn set_text_area_sender(&mut self, tx: Sender<String>)
        ensures
            final(self)@ == (ElemView { has_ta_ws: true, ..old(self)@ }),
            final(self).ta_sender() == Some(tx),
    {
        self.tx_ws_for_ta = Some(tx);
    }

    /// Gives a modal dialog both ends of its answer channel.
    pub(crate) fn set_modal_channel(&mut self, tx: Sender<bool>, rx: Receiver<bool>)
        ensures
            final(self)@ == (ElemView { has_modal_tx: true, has_modal_rx: true, ..old(self)@ }),
    {
        self.tx_modal = Some(tx);
        self.rx_modal = Some(rx);
    }

    /// Appends `n` to this element: its markup, its closing markup, and
    /// its sub-elements between `n`'s `sub_start` and `sub_end`; and its
    /// script followed by that of its sub-elements.
    pub fn add(&mut self, n: &Elem)
        ensures
            final(self)@ == (ElemView {
                html: old(self)@.html + added_html(n@),
                js: old(self)@.js + added_js(n@),
                ..old(self)@
            }),
            final(self)@.js == old(self)@.js + n@.js + n@.sub_elems.map_values(
                |s: ElemView| s.js,
            ).flatten(),
            final(self)@.html == old(self)@.html + n@.html + n@.h_end + n@.sub_start
                + n@.sub_elems.map_values(|s: ElemView| s.html + s.h_end).flatten() + n@.sub_end,
    {
        proof {
            lemma_sub_elems_view(n);
        }
        let ghost subs = n@.sub_elems;
        self.html.append(n.html.as_str());
        self.html.append(n.h_end.as_str());
        self.js.append(n.js.as_str());
        self.html.append(n.sub_start.as_str());
        let ghost html0 = self.html@;
        let ghost js0 = self.js@;
        assert(subs.take(0) =~= Seq::<ElemView>::empty());
        let mut i: usize = 0;
        while i < n.sub_elems.len()
            invariant
                i <= n.sub_elems@.len(),
                subs == n@.sub_elems,
                subs.len() == n.sub_elems@.len(),
                forall|j: int| 0 <= j < subs.len() ==> #[trigger] subs[j] == n.sub_elems@[j]@,
                self.html@ == html0 + subs_html(subs.take(i as int)),
                self.js@ == js0 + subs_js(subs.take(i as int)),
                self.el_type == old(self).el_type,
                self.h_start == old(self).h_start,
                self.h_end == old(self).h_end,
                self.id == old(self).id,
                self.sub_elems == old(self).sub_elems,
                self.sub_start == old(self).sub_start,
                self.sub_end == old(self).sub_end,
                self.tx_ws == old(self).tx_ws,
                self.tx_ws_for_ta == old(self).tx_ws_for_ta,
                self.tx_modal == old(self).tx_modal,
                self.rx_modal == old(self).rx_modal,
            decreases n.sub_elems@.len() - i,
        {
            let se = &n.sub_elems[i];
            self.html.append(se.html.as_str());
            self.html.append(se.h_end.as_str());
            self.js.append(se.js.as_str());
            assert(subs.take(i + 1).drop_last() =~= subs.take(i as int));
            assert(subs[i as int] == se@);
            i = i + 1;
        }
        self.html.append(n.sub_end.as_str());
        assert(subs.take(subs.len() as int) =~= subs);
        assert(self.html@ =~= old(self).html@ + added_html(n@));
        assert(self.js@ =~= old(self).js@ + added_js(n@));
        proof {
            law_add_appends(n@);
        }
    }

    /// Appends to the script a background image taken from `static/`;
    /// `opacity_perc` is the opacity in percent (100 for none).
    pub fn set_background_image(&mut self, filename: &str, opacity_perc: i32)
        ensures
            final(self)@ == (ElemView {
                js: old(self)@.js + background_image_js(old(self)@, filename@, opacity_perc as int),
                ..old(self)@
            }),
    {
        let opacity = i32_to_decimal(opacity_perc);
        let mut js = String::new();
        if self.el_type == ElType::BodyT {
            js.append(BG_IMAGE_BODY_0);
            js.append(filename);
            js.append(BG_IMAGE_BODY_1);
            js.append(opacity.as_str());
            js.append("%");
            js.append(BG_IMAGE_BODY_3);
        } else {
            js.append(BG_IMAGE_ELEM_0);
            js.append(self.id.as_str());
            js.append(BG_IMAGE_ELEM_1);
            js.append(filename);
            js.append(BG_IMAGE_ELEM_2);
            js.append(opacity.as_str());
            js.append("%");
            js.append(BG_IMAGE_ELEM_4);
        }
        self.js.append(js.as_str());
    }

    /// Appends to the script a background color for the element (the whole
    /// page when it is the body).
    pub fn set_background_color(&mut self, text: &str)
        ensures
            final(self)@ == (ElemView {
                js: old(self)@.js + background_color_js(old(self)@, text@),
                ..old(self)@
            }),
    {
        let mut js = String::new();
        if self.el_type == ElType::BodyT {
            js.append(BG_COLOR_BODY_0);
            js.append(text);
            js.append(BG_COLOR_BODY_1);
        } else {
            js.append(BG_COLOR_ELEM_0);
            js.append(self.id.as_str());
            js.append(BG_COLOR_ELEM_1);
            js.append(text);
            js.append(BG_COLOR_ELEM_2);
        }
        self.js.append(js.as_str());
    }

    /// Appends to the script a foreground color for the element.
    pub fn set_color(&mut self, text: &str)
        ensures
            final(self)@ == (ElemView { js: old(self)@.js + color_js(old(self)@.id, text@), ..old(self)@ }),
    {
        let mut js = String::new();
        js.append(COLOR_JS_0);
        js.append(self.id.as_str());
        js.append(COLOR_JS_1);
        js.append(text);
        js.append(COLOR_JS_2);
        self.js.append(js.as_str());
    }

    /// Appends to the script a font size for the element.
    pub fn set_font_size(&mut self, text: &str)
        ensures
            final(self)@ == (ElemView {
                js: old(self)@.js + font_size_js(old(self)@.id, text@),
                ..old(self)@
            }),
    {
        let mut js = String::new();
        js.append(FONT_SIZE_JS_0);
        js.append(self.id.as_str());
        js.append(FONT_SIZE_JS_1);
        js.append(text);
        js.append(FONT_SIZE_JS_2);
        self.js.append(js.as_str());
    }

    /// Appends to the script a font family for the element.
    pub fn set_font_family(&mut self, text: &str)
        ensures
            final(self)@ == (ElemView {
                js: old(self)@.js + font_family_js(old(self)@.id, text@),
                ..old(self)@
            }),
    {
        let mut js = String::new();
        js.append(FONT_FAMILY_JS_0);
        js.append(self.id.as_str());
        js.append(FONT_FAMILY_JS_1);
        js.append(text);
        js.append(FONT_FAMILY_JS_2);
        self.js.append(js.as_str());
    }

    /// The websocket message that carries `cmd` for this element.
    pub fn message(&self, cmd: &UiCommand) -> (m: String)
        ensures
            m@ == command_message(self@.id, self@.el_type, *cmd),
    {
        let id = self.id.as_str();
        let mut m = String::new();
        match cmd {
            UiCommand::Disable => {
                m.append("ENABLE@");
                m.append(id);
                m.append("@");
                m.append("DISABLE");
            },
            UiCommand::Enable => {
                m.append("ENABLE@");
                m.append(id);
                m.append("@");
                m.append("ENABLE");
            },
            UiCommand::Click => {
                m.append("CLICK@");
                m.append(id);
            },
            UiCommand::Image(f) => {
                m.append("IMAGE@");
                m.append(id);
                m.append("@");
                m.append(f);
            },
            UiCommand::Text(x) => {
                m.append("TEXT@");
                m.append(id);
                if self.el_type == ElType::ButtonT {
                    m.append("text@");
                } else {
                    m.append("@");
                }
                m.append(x);
            },
            UiCommand::FontFamily(x) => {
                m.append("FONTFAMILY@");
                m.append(id);
                m.append("@");
                m.append(x);
            },
            UiCommand::FontSize(x) => {
                m.append("FONTSIZE@");
                m.append(id);
                m.append("@");
                m.append(x);
            },
            UiCommand::Color(x) => {
                m.append("COLOR@");
                m.append(id);
                m.append("@");
                m.append(x);
            },
            UiCommand::BackgroundColor(x) => {
                m.append("BCOLOR@");
                m.append(id);
                m.append("@");
                m.append(x);
            },
            UiCommand::ModalShow => {
                m.append("MODALSHOW@");
                m.append(id);
                m.append("@");
                m.append("dummy");
            },
            UiCommand::RedrawY(ys) => {
                m.append("PREDRAWY@");
                m.append(id);
                m.append("@");
                let n = usize_to_decimal(ys.len());
                m.append(n.as_str());
                append_at_joined(&mut m, ys);
            },
            UiCommand::RedrawXsY(xs, ys) => {
                m.append("PREDRAWXSY@");
                m.append(id);
                m.append("@");
                let n = usize_to_decimal(ys.len());
                m.append(n.as_str());
                append_at_joined(&mut m, ys);
                append_at_joined(&mut m, xs);
            },
        }
        m
    }

    /// Hands a message to the websocket thread; gives back what it handed over.
    fn send_ws(&self, msg: String) -> (sent: Ghost<Seq<char>>)
        requires
            self@.has_ws,
        ensures
            sent@ == msg@,
    {
        let tx = self.tx_ws.as_ref().unwrap();
        let (_, handed) = send_message(tx, msg);
        Ghost(handed@@)
    }

    /// Sends `cmd` for this element to the page; `sent` is the message
    /// handed to the websocket thread.
    pub fn send_command(&self, cmd: &UiCommand) -> (sent: Ghost<Seq<char>>)
        requires
            self@.has_ws,
        ensures
            sent@ == command_message(self@.id, self@.el_type, *cmd),
    {
        let m = self.message(cmd);
        self.send_ws(m)
    }

    /// Shows a modal dialog: sends its `MODALSHOW` message; sends nothing
    /// for other kinds of element.
    pub fn modal_show(&self) -> (sent: Ghost<Option<Seq<char>>>)
        requires
            self@.el_type == ElType::ModalT ==> self@.has_ws,
        ensures
            sent@ == if self@.el_type == ElType::ModalT {
                Some(command_message(self@.id, self@.el_type, UiCommand::ModalShow))
            } else {
                None
            },
    {
        if self.el_type == ElType::ModalT {
            let m = self.send_command(&UiCommand::ModalShow);
            Ghost(Some(m@))
        } else {
            Ghost(None)
        }
    }

    /// Writes `text` into a text area: the text itself goes on the text
    /// area's own channel; nothing is sent for other kinds of element.
    pub fn write_textarea(&self, text: &str) -> (sent: Ghost<Option<Seq<char>>>)
        requires
            self@.el_type == ElType::TextAreaT ==> self@.has_ta_ws,
        ensures
            sent@ == if self@.el_type == ElType::TextAreaT {
                Some(text@)
            } else {
                None
            },
    {
        if self.el_type == ElType::TextAreaT {
            let tx = self.tx_ws_for_ta.as_ref().unwrap();
            let (_, handed) = send_message(tx, String::from_str(text));
            Ghost(Some(handed@@))
        } else {
            Ghost(None)
        }
    }

    /// Reports the answer of a modal dialog to whoever waits in
    /// `modal_selected`: `flag` goes on the dialog's own channel; nothing is
    /// sent for other kinds of element.
    pub fn modal_select(&self, flag: bool) -> (sent: Ghost<Option<bool>>)
        requires
            self@.el_type == ElType::ModalT ==> self@.has_modal_tx,
        ensures
            sent@ == if self@.el_type == ElType::ModalT {
                Some(flag)
            } else {
                None
            },
    {
        if self.el_type == ElType::ModalT {
            let tx = self.tx_modal.as_ref().unwrap();
            let (_, handed) = send_message(tx, flag);
            Ghost(Some(handed@))
        } else {
            Ghost(None)
        }
    }

    /// Waits for the answer of a modal dialog; `false` for other kinds of
    /// element. While this element holds the dialog's sending end the
    /// channel stays open, so the wait ends only with an answer, and that
    /// answer is returned (see `modal_answer`).
    pub fn modal_selected(&self) -> (flag: bool)
        requires
            self@.el_type == ElType::ModalT ==> self@.has_modal_rx,
        ensures
            self@.el_type != ElType::ModalT ==> !flag,
    {
        if self.el_type == ElType::ModalT {
            let rx = self.rx_modal.as_ref().unwrap();
            modal_answer(receive_message(rx))
        } else {
            false
        }
    }

    /// Disables the element on the running page.
    pub fn change_to_disable(&self) -> (sent: Ghost<Seq<char>>)
        requires
            self@.has_ws,
        ensures
            sent@ == command_message(self@.id, self@.el_type, UiCommand::Disable),
    {
        self.send_command(&UiCommand::Disable)
    }

    /// Enables the element on the running page.
    pub fn change_to_enable(&self) -> (sent: Ghost<Seq<char>>)
        requires
            self@.has_ws,
        ensures
            sent@ == command_message(self@.id, self@.el_type, UiCommand::Enable),
    {
        self.send_command(&UiCommand::Enable)
    }

    /// Runs the element's click handler on the running page.
    pub fn click(&self) -> (sent: Ghost<Seq<char>>)
        requires
            self@.has_ws,
        ensures
            sent@ == command_message(self@.id, self@.el_type, UiCommand::Click),
    {
        self.send_command(&UiCommand::Click)
    }

    /// Shows the image `file_name` (from `static/`) in an image element.
    pub fn change_image(&self, file_name: &str) -> (sent: Ghost<Seq<char>>)
        requires
            self@.has_ws,
        ensures
            sent@ == command_message(self@.id, self@.el_type, UiCommand::Image(file_name)),
    {
        self.send_command(&UiCommand::Image(file_name))
    }

    /// Replaces the element's text on the running page.
    pub fn change_text(&self, text: &str) -> (sent: Ghost<Seq<char>>)
        requires
            self@.has_ws,
        ensures
            sent@ == command_message(self@.id, self@.el_type, UiCommand::Text(text)),
    {
        self.send_command(&UiCommand::Text(text))
    }

    /// Changes the element's font family on the running page.
    pub fn change_font_family(&self, text: &str) -> (sent: Ghost<Seq<char>>)
        requires
            self@.has_ws,
        ensures
            sent@ == command_message(self@.id, self@.el_type, UiCommand::FontFamily(text)),
    {
        self.send_command(&UiCommand::FontFamily(text))
    }

    /// Changes the element's font size on the running page.
    pub fn change_font_size(&self, text: &str) -> (sent: Ghost<Seq<char>>)
        requires
            self@.has_ws,
        ensures
            sent@ == command_message(self@.id, self@.el_type, UiCommand::FontSize(text)),
    {
        self.send_command(&UiCommand::FontSize(text))
    }

    /// Changes the element's color on the running page.
    pub fn change_color(&self, text: &str) -> (sent: Ghost<Seq<char>>)
        requires
            self@.has_ws,
        ensures
            sent@ == command_message(self@.id, self@.el_type, UiCommand::Color(text)),
    {
        self.send_command(&UiCommand::Color(text))
    }

    /// Changes the element's background color on the running page.
    pub fn change_background_color(&self, text: &str) -> (sent: Ghost<Seq<char>>)
        requires
            self@.has_ws,
        ensures
            sent@ == command_message(self@.id, self@.el_type, UiCommand::BackgroundColor(text)),
    {
        self.send_command(&UiCommand::BackgroundColor(text))
    }

    /// Redraws a chart with new y values, each already written as text.
    pub fn plot_redrawy(&self, y: &Vec<String>) -> (sent: Ghost<Seq<char>>)
        requires
            self@.has_ws,
        ensures
            sent@ == command_message(self@.id, self@.el_type, UiCommand::RedrawY(y)),
    {
        self.send_command(&UiCommand::RedrawY(y))
    }

    /// Redraws a chart with new x labels and y values, each already
    /// written as text.
    pub fn plot_redrawxsy(&self, x: &Vec<String>, y: &Vec<String>) -> (sent: Ghost<Seq<char>>)
        requires
            self@.has_ws,
        ensures
            sent@ == command_message(self@.id, self@.el_type, UiCommand::RedrawXsY(x, y)),
    {
        self.send_command(&UiCommand::RedrawXsY(x, y))
    }
}

// ------------------------------------------------------------------
// How the page reads a message back
// ------------------------------------------------------------------

/// `s` holds no `@`.
pub open spec fn no_at(s: Seq<char>) -> bool {
    forall|p: int| 0 <= p < s.len() ==> s[p] != '@'
}

/// The fields that the page's script gets from a message by splitting it
/// at every `@` (as `String.prototype.split('@')` does).
pub open spec fn at_fields(s: Seq<char>) -> Seq<Seq<char>>
    decreases s.len(),
{
    if s.len() == 0 {
        seq![Seq::<char>::empty()]
    } else {
        let p = at_fields(s.drop_last());
        if s.last() == '@' {
            p.push(Seq::<char>::empty())
        } else {
            p.update(p.len() - 1, p.last().push(s.last()))
        }
    }
}

proof fn lemma_at_fields_nonempty(s: Seq<char>)
    ensures
        at_fields(s).len() > 0,
    decreases s.len(),
{
    if s.len() > 0 {
        lemma_at_fields_nonempty(s.drop_last());
    }
}

proof fn lemma_at_fields_single(s: Seq<char>)
    requires
        no_at(s),
    ensures
        at_fields(s) == seq![s],
    decreases s.len(),
{
    if s.len() > 0 {
        let d = s.drop_last();
        lemma_at_fields_single(d);
        assert(d.push(s.last()) =~= s);
        assert(seq![d].update(0, d.push(s.last())) =~= seq![s]);
    } else {
        assert(s =~= Seq::<char>::empty());
    }
}

proof fn lemma_at_fields_append(a: Seq<char>, b: Seq<char>)
    requires
        no_at(b),
    ensures
        at_fields(a + seq!['@'] + b) == at_fields(a).push(b),
    decreases b.len(),
{
    lemma_at_fields_nonempty(a);
    if b.len() == 0 {
        assert((a + seq!['@'] + b).drop_last() =~= a);
        assert(b =~= Seq::<char>::empty());
    } else {
        let d = b.drop_last();
        lemma_at_fields_append(a, d);
        assert((a + seq!['@'] + b).drop_last() =~= a + seq!['@'] + d);
        assert(d.push(b.last()) =~= b);
        assert(at_fields(a).push(d).update(at_fields(a).len() as int, d.push(b.last()))
            =~= at_fields(a).push(b));
    }
}

proof fn lemma_at_fields_joined(a: Seq<char>, parts: Seq<Seq<char>>)
    requires
        forall|k: int| 0 <= k < parts.len() ==> no_at(#[trigger] parts[k]),
    ensures
        at_fields(a + at_joined(parts)) == at_fields(a) + parts,
    decreases parts.len(),
{
    reveal_strlit("@");
    if parts.len() == 0 {
        assert(a + at_joined(parts) =~= a);
        assert(at_fields(a) + parts =~= at_fields(a));
    } else {
        let d = parts.drop_last();
        lemma_at_fields_joined(a, d);
        assert(a + at_joined(parts) =~= (a + at_joined(d)) + seq!['@'] + parts.last());
        lemma_at_fields_append(a + at_joined(d), parts.last());
        assert((at_fields(a) + d).push(parts.last()) =~= at_fields(a) + parts);
    }
}

/// The fields in which the page reads a command: its key, its target,
/// then its arguments.
pub open spec fn command_fields(id: Seq<char>, t: ElType, cmd: UiCommand) -> Seq<Seq<char>> {
    match cmd {
        UiCommand::Disable => seq!["ENABLE"@, id, "DISABLE"@],
        UiCommand::Enable => seq!["ENABLE"@, id, "ENABLE"@],
        UiCommand::Click => seq!["CLICK"@, id],
        UiCommand::Image(f) => seq!["IMAGE"@, id, f@],
        UiCommand::Text(x) => if t == ElType::ButtonT {
            seq!["TEXT"@, id + "text"@, x@]
        } else {
            seq!["TEXT"@, id, x@]
        },
        UiCommand::FontFamily(x) => seq!["FONTFAMILY"@, id, x@],
        UiCommand::FontSize(x) => seq!["FONTSIZE"@, id, x@],
        UiCommand::Color(x) => seq!["COLOR"@, id, x@],
        UiCommand::BackgroundColor(x) => seq!["BCOLOR"@, id, x@],
        UiCommand::ModalShow => seq!["MODALSHOW"@, id, "dummy"@],
        UiCommand::RedrawY(ys) => seq!["PREDRAWY"@, id, decimal(ys@.len())] + string_views(ys@),
        UiCommand::RedrawXsY(xs, ys) => seq!["PREDRAWXSY"@, id, decimal(ys@.len())]
            + string_views(ys@) + string_views(xs@),
    }
}

/// The texts that a command carries, besides its key and target.
pub open spec fn command_texts(cmd: UiCommand) -> Seq<Seq<char>> {
    match cmd {
        UiCommand::Image(x) => seq![x@],
        UiCommand::Text(x) => seq![x@],
        UiCommand::FontFamily(x) => seq![x@],
        UiCommand::FontSize(x) => seq![x@],
        UiCommand::Color(x) => seq![x@],
        UiCommand::BackgroundColor(x) => seq![x@],
        UiCommand::RedrawY(ys) => string_views(ys@),
        UiCommand::RedrawXsY(xs, ys) => string_views(ys@) + string_views(xs@),
        _ => seq![],
    }
}

/// Splitting a message at `@`, as the page does, gives back the command's
/// key, the target element's id, and each of its arguments, provided none
/// of them holds an `@`.
#[verifier::spinoff_prover]
#[verifier::rlimit(40)]
pub proof fn law_message_fields(id: Seq<char>, t: ElType, cmd: UiCommand)
    requires
        no_at(id),
        forall|k: int| 0 <= k < command_texts(cmd).len() ==> no_at(#[trigger] command_texts(cmd)[k]),
    ensures
        at_fields(command_message(id, t, cmd)) == command_fields(id, t, cmd),
{
    reveal_strlit("@");
    reveal_strlit("ENABLE@");
    reveal_strlit("ENABLE");
    reveal_strlit("DISABLE");
    reveal_strlit("CLICK@");
    reveal_strlit("CLICK");
    reveal_strlit("IMAGE@");
    reveal_strlit("IMAGE");
    reveal_strlit("TEXT@");
    reveal_strlit("TEXT");
    reveal_strlit("text@");
    reveal_strlit("text");
    reveal_strlit("FONTFAMILY@");
    reveal_strlit("FONTFAMILY");
    reveal_strlit("FONTSIZE@");
    reveal_strlit("FONTSIZE");
    reveal_strlit("COLOR@");
    reveal_strlit("COLOR");
    reveal_strlit("BCOLOR@");
    reveal_strlit("BCOLOR");
    reveal_strlit("MODALSHOW@");
    reveal_strlit("MODALSHOW");
    reveal_strlit("dummy");
    reveal_strlit("PREDRAWY@");
    reveal_strlit("PREDRAWY");
    reveal_strlit("PREDRAWXSY@");
    reveal_strlit("PREDRAWXSY");
    let at = seq!['@'];
    match cmd {
        UiCommand::Disable => {
            lemma_fields3("ENABLE"@, id, "DISABLE"@);
            assert(command_message(id, t, cmd) =~= "ENABLE"@ + at + id + at + "DISABLE"@);
        },
        UiCommand::Enable => {
            lemma_fields3("ENABLE"@, id, "ENABLE"@);
            assert(command_message(id, t, cmd) =~= "ENABLE"@ + at + id + at + "ENABLE"@);
        },
        UiCommand::Click => {
            lemma_at_fields_single("CLICK"@);
            lemma_at_fields_append("CLICK"@, id);
            assert(command_message(id, t, cmd) =~= "CLICK"@ + at + id);
        },
        UiCommand::Image(x) => {
            assert(no_at(command_texts(cmd)[0]));
            lemma_fields3("IMAGE"@, id, x@);
            assert(command_message(id, t, cmd) =~= "IMAGE"@ + at + id + at + x@);
        },
        UiCommand::Text(x) => {
            assert(no_at(command_texts(cmd)[0]));
            if t == ElType::ButtonT {
                let target = id + "text"@;
                assert(no_at(target)) by {
                    assert forall|p: int| 0 <= p < target.len() implies target[p] != '@' by {
                        if p < id.len() {
                            assert(target[p] == id[p]);
                        }
                    }
                }
                lemma_fields3("TEXT"@, target, x@);
                assert(command_message(id, t, cmd) =~= "TEXT"@ + at + target + at + x@);
            } else {
                lemma_fields3("TEXT"@, id, x@);
                assert(command_message(id, t, cmd) =~= "TEXT"@ + at + id + at + x@);
            }
        },
        UiCommand::FontFamily(x) => {
            assert(no_at(command_texts(cmd)[0]));
            lemma_fields3("FONTFAMILY"@, id, x@);
            assert(command_message(id, t, cmd) =~= "FONTFAMILY"@ + at + id + at + x@);
        },
        UiCommand::FontSize(x) => {
            assert(no_at(command_texts(cmd)[0]));
            lemma_fields3("FONTSIZE"@, id, x@);
            assert(command_message(id, t, cmd) =~= "FONTSIZE"@ + at + id + at + x@);
        },
        UiCommand::Color(x) => {
            assert(no_at(command_texts(cmd)[0]));
            lemma_fields3("COLOR"@, id, x@);
            assert(command_message(id, t, cmd) =~= "COLOR"@ + at + id + at + x@);
        },
        UiCommand::BackgroundColor(x) => {
            assert(no_at(command_texts(cmd)[0]));
            lemma_fields3("BCOLOR"@, id, x@);
            assert(command_message(id, t, cmd) =~= "BCOLOR"@ + at + id + at + x@);
        },
        UiCommand::ModalShow => {
            lemma_fields3("MODALSHOW"@, id, "dummy"@);
            assert(command_message(id, t, cmd) =~= "MODALSHOW"@ + at + id + at + "dummy"@);
        },
        UiCommand::RedrawY(ys) => {
            let n = decimal(ys@.len());
            lemma_decimal_no_at(ys@.len());
            lemma_fields3("PREDRAWY"@, id, n);
            let head = "PREDRAWY"@ + at + id + at + n;
            let yv = string_views(ys@);
            assert forall|k: int| 0 <= k < yv.len() implies no_at(#[trigger] yv[k]) by {
                assert(command_texts(cmd)[k] == yv[k]);
            }
            lemma_at_fields_joined(head, yv);
            assert(command_message(id, t, cmd) =~= head + at_joined(string_views(ys@)));
        },
        UiCommand::RedrawXsY(xs, ys) => {
            let n = decimal(ys@.len());
            lemma_decimal_no_at(ys@.len());
            lemma_fields3("PREDRAWXSY"@, id, n);
            let head = "PREDRAWXSY"@ + at + id + at + n;
            let yv = string_views(ys@);
            let xv = string_views(xs@);
            assert forall|k: int| 0 <= k < yv.len() implies no_at(#[trigger] yv[k]) by {
                assert(command_texts(cmd)[k] == yv[k]);
            }
            assert forall|k: int| 0 <= k < xv.len() implies no_at(#[trigger] xv[k]) by {
                assert(command_texts(cmd)[yv.len() + k] == xv[k]);
            }
            lemma_at_fields_joined(head, yv);
            lemma_at_fields_joined(head + at_joined(yv), xv);
            assert(command_message(id, t, cmd) =~= head + at_joined(yv) + at_joined(xv));
            assert(at_fields(head) + yv + xv =~= command_fields(id, t, cmd));
        },
    }
}

proof fn lemma_fields3(a: Seq<char>, b: Seq<char>, c: Seq<char>)
    requires
        no_at(a),
        no_at(b),
        no_at(c),
    ensures
        at_fields(a + seq!['@'] + b + seq!['@'] + c) == seq![a, b, c],
{
    lemma_at_fields_single(a);
    lemma_at_fields_append(a, b);
    lemma_at_fields_append(a + seq!['@'] + b, c);
    assert(seq![a].push(b).push(c) =~= seq![a, b, c]);
}

proof fn lemma_decimal_no_at(n: nat)
    ensures
        no_at(decimal(n)),
{
    crate::text::lemma_decimal(n);
    assert forall|p: int| 0 <= p < decimal(n).len() implies decimal(n)[p] != '@' by {
        assert(crate::text::is_digit(decimal(n)[p]));
    }
}

/// The text command targets, on a button, the span that holds its caption
/// (its id followed by `text`), and on every other kind of element the
/// element itself: the page reads the key `TEXT`, that target and the new
/// text, and nothing else.
pub proof fn law_text_command_target(id: Seq<char>, t: ElType, x: &str)
    requires
        no_at(id),
        no_at(x@),
    ensures
        at_fields(command_message(id, t, UiCommand::Text(x))) == seq![
            "TEXT"@,
            if t == ElType::ButtonT {
                id + "text"@
            } else {
                id
            },
            x@,
        ],
        t != ElType::ButtonT ==> command_message(id, t, UiCommand::Text(x)) == "TEXT@"@ + id + "@"@
            + x@,
{
    assert(command_texts(UiCommand::Text(x)) =~= seq![x@]);
    law_message_fields(id, t, UiCommand::Text(x));
}

/// Every command is addressed to the element it is sent for: the second
/// field the page reads is the element's id, except for the text of a
/// button, which goes to the span holding its caption (the id followed
/// by `text`).
pub proof fn law_message_target(id: Seq<char>, t: ElType, cmd: UiCommand)
    requires
        no_at(id),
        forall|k: int| 0 <= k < command_texts(cmd).len() ==> no_at(#[trigger] command_texts(cmd)[k]),
    ensures
        at_fields(command_message(id, t, cmd)).len() >= 2,
        at_fields(command_message(id, t, cmd))[1] == if t == ElType::ButtonT
            && cmd is Text {
            id + "text"@
        } else {
            id
        },
{
    law_message_fields(id, t, cmd);
}

} // verus!
