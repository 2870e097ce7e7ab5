//! Callbacks that elements register, and what the websocket thread does
//! with a message that the page sends: which callbacks run, with which
//! text and number.
use crate::elem::{ElType, Elem, ElemView};
use crate::text::{
    find_sep_from, first_piece, parse_i32, parse_i32_spec, second_piece, signed_decimal,
    split_event, starts_with, lemma_parse_signed_decimal, lemma_decimal, all_digits,
};
use vstd::prelude::*;
use vstd::string::*;

verus! {

/// One registered callback: the element it belongs to, that element's
/// kind, the address the page sends for it (`/` and the element id), and
/// the handler `fun` that runs.
pub struct Callback<H> {
    el: Elem,
    el_type: ElType,
    id: String,
    fun: H,
}

/// A registered callback as the contracts see it (its handler aside).
pub struct CallbackView {
    pub el: ElemView,
    pub el_type: ElType,
    pub id: Seq<char>,
}

/// The callbacks of a page, in the order they were registered.
pub struct Callbacks<H> {
    cbs: Vec<Callback<H>>,
}

impl<H> Callbacks<H> {
    pub closed spec fn entries(&self) -> Seq<CallbackView> {
        Seq::new(
            self.cbs@.len(),
            |i: int|
                CallbackView {
                    el: self.cbs@[i].el@,
                    el_type: self.cbs@[i].el_type,
                    id: self.cbs@[i].id@,
                },
        )
    }

    pub closed spec fn handlers(&self) -> Seq<H> {
        Seq::new(self.cbs@.len(), |i: int| self.cbs@[i].fun)
    }

    /// The number of registered callbacks.
    pub fn len(&self) -> (n: usize)
        ensures
            n == self.entries().len(),
    {
        self.cbs.len()
    }

    /// The element that callback `i` belongs to.
    pub fn element(&self, i: usize) -> (e: &Elem)
        requires
            i < self.entries().len(),
        ensures
            e@ == self.entries()[i as int].el,
    {
        &self.cbs[i].el
    }

    /// The handler of callback `i`, to run it.
    pub fn handler_mut(&mut self, i: usize) -> (f: &mut H)
        requires
            i < old(self).entries().len(),
        ensures
            *f == old(self).handlers()[i as int],
            final(self).handlers() == old(self).handlers().update(i as int, *final(f)),
            final(self).entries() == old(self).entries(),
    {
        let cb = &mut self.cbs[i];
        &mut cb.fun
    }
}

impl<H> Default for Callbacks<H> {
    fn default() -> (r: Self)
        ensures
            r.entries() == Seq::<CallbackView>::empty(),
            r.handlers() == Seq::<H>::empty(),
    {
        let r = Callbacks { cbs: Vec::new() };
        assert(r.entries() =~= Seq::<CallbackView>::empty());
        assert(r.handlers() =~= Seq::<H>::empty());
        r
    }
}

impl Elem {
    /// Registers `fun` to run when the page reports an event of this
    /// element; it is known by `/` followed by the element id.
    pub fn callback<H>(&self, cbs: &mut Callbacks<H>, fun: H)
        ensures
            final(cbs).entries() == old(cbs).entries().push(
                CallbackView { el: self@, el_type: self@.el_type, id: "/"@ + self@.id },
            ),
            final(cbs).handlers() == old(cbs).handlers().push(fun),
    {
        let mut addr = String::from_str("/");
        addr.append(self.id_str());
        let cb = Callback { el: self.clone(), el_type: self.kind(), id: addr, fun: fun };
        cbs.cbs.push(cb);
        assert(cbs.entries() =~= old(cbs).entries().push(
            CallbackView { el: self@, el_type: self@.el_type, id: "/"@ + self@.id },
        ));
        assert(cbs.handlers() =~= old(cbs).handlers().push(fun));
    }
}

/// What the websocket thread does for one callback.
pub enum WsAction {
    /// Run handler `index` with this text and number.
    Invoke { index: usize, text: String, value: i32 },
    /// Replace the text of the element of callback `index` on the page.
    ChangeText { index: usize, text: String },
    /// Run handler `index` with the file name part of `path` and 0.
    InvokeWithFileName { index: usize, path: String },
    /// Stop: the message lacks what the callback needs.
    Abort,
}

pub enum WsActionView {
    Invoke { index: int, text: Seq<char>, value: i32 },
    ChangeText { index: int, text: Seq<char> },
    InvokeWithFileName { index: int, path: Seq<char> },
    Abort,
}

impl View for WsAction {
    type V = WsActionView;

    open spec fn view(&self) -> WsActionView {
        match self {
            WsAction::Invoke { index, text, value } => WsActionView::Invoke {
                index: *index as int,
                text: text@,
                value: *value,
            },
            WsAction::ChangeText { index, text } => WsActionView::ChangeText {
                index: *index as int,
                text: text@,
            },
            WsAction::InvokeWithFileName { index, path } => WsActionView::InvokeWithFileName {
                index: *index as int,
                path: path@,
            },
            WsAction::Abort => WsActionView::Abort,
        }
    }
}

/// The text of an optional string.
pub open spec fn opt_view(o: Option<String>) -> Option<Seq<char>> {
    match o {
        Some(v) => Some(v@),
        None => None,
    }
}

pub open spec fn action_views(v: Seq<WsAction>) -> Seq<WsActionView> {
    v.map_values(|a: WsAction| a@)
}

/// What callback `i` of kind `t` does with the message's value (the text
/// after the first `@@`, if any). Buttons take no value; text inputs and
/// dropdowns take it as text (a dropdown first shows it as its own text);
/// sliders and radio buttons take it as text and as a number; a message
/// without the value that the callback needs stops the thread.
pub open spec fn callback_actions(i: int, t: ElType, value: Option<Seq<char>>) -> Seq<
    WsActionView,
> {
    if t == ElType::ButtonT {
        seq![WsActionView::Invoke { index: i, text: seq![], value: 0 }]
    } else if t == ElType::ITextT || t == ElType::DDownT || t == ElType::FileInputT || t
        == ElType::RSliderT || t == ElType::RadioT {
        match value {
            None => seq![WsActionView::Abort],
            Some(v) => if t == ElType::DDownT {
                seq![
                    WsActionView::ChangeText { index: i, text: v },
                    WsActionView::Invoke { index: i, text: v, value: 0 },
                ]
            } else if t == ElType::ITextT {
                seq![WsActionView::Invoke { index: i, text: v, value: 0 }]
            } else if t == ElType::FileInputT {
                seq![WsActionView::InvokeWithFileName { index: i, path: v }]
            } else {
                match parse_i32_spec(v) {
                    Some(n) => seq![WsActionView::Invoke { index: i, text: v, value: n }],
                    None => seq![WsActionView::Abort],
                }
            },
        }
    } else {
        seq![]
    }
}

pub open spec fn ends_in_abort(s: Seq<WsActionView>) -> bool {
    s.len() > 0 && s.last() == WsActionView::Abort
}

/// The actions for the first `j` callbacks, in order: those of each
/// callback whose address is `target`, up to the first abort.
pub open spec fn dispatch_upto(
    entries: Seq<CallbackView>,
    target: Seq<char>,
    value: Option<Seq<char>>,
    j: int,
) -> Seq<WsActionView>
    decreases j,
{
    if j <= 0 {
        seq![]
    } else {
        let prev = dispatch_upto(entries, target, value, j - 1);
        if ends_in_abort(prev) {
            prev
        } else if entries[j - 1].id == target {
            prev + callback_actions(j - 1, entries[j - 1].el_type, value)
        } else {
            prev
        }
    }
}

/// What the websocket thread does with the message `msg`: its first
/// `@@`-separated piece is the address of the callbacks to run when it
/// starts with `/`; other messages are ignored.
pub open spec fn ws_actions(entries: Seq<CallbackView>, msg: Seq<char>) -> Seq<WsActionView> {
    let target = first_piece(msg);
    if target.len() > 0 && target[0] == '/' {
        dispatch_upto(entries, target, second_piece(msg), entries.len() as int)
    } else {
        seq![]
    }
}

fn push_callback_actions(out: &mut Vec<WsAction>, i: usize, t: ElType, value: &Option<String>)
    ensures
        action_views(final(out)@) == action_views(old(out)@) + callback_actions(
            i as int,
            t,
            opt_view(*value),
        ),
{
    let ghost before = out@;
    if t == ElType::ButtonT {
        out.push(WsAction::Invoke { index: i, text: String::new(), value: 0 });
    } else if t == ElType::ITextT || t == ElType::DDownT || t == ElType::FileInputT || t
        == ElType::RSliderT || t == ElType::RadioT {
        match value {
            None => {
                out.push(WsAction::Abort);
            },
            Some(v) => {
                if t == ElType::DDownT {
                    out.push(WsAction::ChangeText { index: i, text: v.clone() });
                    out.push(WsAction::Invoke { index: i, text: v.clone(), value: 0 });
                } else if t == ElType::ITextT {
                    out.push(WsAction::Invoke { index: i, text: v.clone(), value: 0 });
                } else if t == ElType::FileInputT {
                    out.push(WsAction::InvokeWithFileName { index: i, path: v.clone() });
                } else {
                    match parse_i32(v.as_str()) {
                        Some(n) => {
                            out.push(WsAction::Invoke { index: i, text: v.clone(), value: n });
                        },
                        None => {
                            out.push(WsAction::Abort);
                        },
                    }
                }
            },
        }
    }
    assert(action_views(out@) =~= action_views(before) + callback_actions(
        i as int,
        t,
        opt_view(*value),
    ));
}

/// What the websocket thread does with the message `msg` from the page.
pub fn handle_ws_message<H>(cbs: &Callbacks<H>, msg: &str) -> (r: Vec<WsAction>)
    ensures
        action_views(r@) == ws_actions(cbs.entries(), msg@),
{
    let (target, value) = split_event(msg);
    let ghost value_view = opt_view(value);
    let mut out: Vec<WsAction> = Vec::new();
    proof {
        reveal_strlit("/");
    }
    let is_addressed = starts_with(target.as_str(), "/");
    assert(is_addressed == (target@.len() > 0 && target@[0] == '/')) by {
        reveal_strlit("/");
        assert("/"@ =~= seq!['/']);
        if target@.len() > 0 && target@[0] == '/' {
            assert(target@.take(1) =~= seq!['/']);
        }
        if is_addressed {
            assert(target@.take(1)[0] == '/');
        }
    }
    if !is_addressed {
        assert(action_views(out@) =~= ws_actions(cbs.entries(), msg@));
        return out;
    }
    let ghost entries = cbs.entries();
    let n = cbs.cbs.len();
    let mut i: usize = 0;
    let mut aborted = false;
    assert(action_views(out@) =~= dispatch_upto(entries, target@, value_view, 0));
    while i < n
        invariant
            i <= n,
            n == cbs.cbs@.len(),
            entries == cbs.entries(),
            value_view == second_piece(msg@),
            action_views(out@) == dispatch_upto(entries, target@, value_view, i as int),
            aborted == ends_in_abort(action_views(out@)),
            value_view == (opt_view(value)),
        decreases n - i,
    {
        if !aborted && cbs.cbs[i].id == target {
            push_callback_actions(&mut out, i, cbs.cbs[i].el_type, &value);
            aborted = out.len() > 0 && match &out[out.len() - 1] {
                WsAction::Abort => true,
                _ => false,
            };
        }
        i = i + 1;
    }
    out
}

/// With one callback addressed `target` (at position `i`), whose actions
/// do not stop the thread, the first `j` callbacks give its actions once
/// `j` passes it and none before.
proof fn lemma_dispatch_single(
    entries: Seq<CallbackView>,
    target: Seq<char>,
    value: Option<Seq<char>>,
    i: int,
    j: int,
)
    requires
        0 <= i < entries.len(),
        0 <= j <= entries.len(),
        entries[i].id == target,
        forall|q: int| 0 <= q < entries.len() && q != i ==> #[trigger] entries[q].id != target,
        !ends_in_abort(callback_actions(i, entries[i].el_type, value)),
    ensures
        dispatch_upto(entries, target, value, j) == if j > i {
            callback_actions(i, entries[i].el_type, value)
        } else {
            Seq::<WsActionView>::empty()
        },
    decreases j,
{
    if j > 0 {
        lemma_dispatch_single(entries, target, value, i, j - 1);
        if j - 1 == i {
            assert(Seq::<WsActionView>::empty() + callback_actions(i, entries[i].el_type, value)
                =~= callback_actions(i, entries[i].el_type, value));
        }
    }
}

/// Every action that a message causes belongs to a callback whose
/// address is the message's first piece, which starts with `/`.
pub proof fn law_dispatch_only_addressed(entries: Seq<CallbackView>, msg: Seq<char>, k: int)
    requires
        0 <= k < ws_actions(entries, msg).len(),
    ensures
        first_piece(msg).len() > 0 && first_piece(msg)[0] == '/',
        match ws_actions(entries, msg)[k] {
            WsActionView::Invoke { index, .. } => 0 <= index < entries.len() && entries[index].id
                == first_piece(msg),
            WsActionView::ChangeText { index, .. } => 0 <= index < entries.len()
                && entries[index].id == first_piece(msg),
            WsActionView::InvokeWithFileName { index, .. } => 0 <= index < entries.len()
                && entries[index].id == first_piece(msg),
            WsActionView::Abort => true,
        },
{
    lemma_dispatch_addressed(entries, first_piece(msg), second_piece(msg), entries.len() as int);
}

proof fn lemma_dispatch_addressed(
    entries: Seq<CallbackView>,
    target: Seq<char>,
    value: Option<Seq<char>>,
    j: int,
)
    requires
        j <= entries.len(),
    ensures
        forall|k: int|
            0 <= k < dispatch_upto(entries, target, value, j).len() ==> match #[trigger] dispatch_upto(
                entries,
                target,
                value,
                j,
            )[k] {
                WsActionView::Invoke { index, .. } => 0 <= index < j && entries[index].id == target,
                WsActionView::ChangeText { index, .. } => 0 <= index < j && entries[index].id
                    == target,
                WsActionView::InvokeWithFileName { index, .. } => 0 <= index < j
                    && entries[index].id == target,
                WsActionView::Abort => true,
            },
    decreases j,
{
    if j > 0 {
        lemma_dispatch_addressed(entries, target, value, j - 1);
    }
}

/// A button press: the page sends `/` and the button's id; the one
/// callback registered for that button runs with no text and 0.
pub proof fn law_button_event(entries: Seq<CallbackView>, i: int, id: Seq<char>)
    requires
        0 <= i < entries.len(),
        entries[i].id == "/"@ + id,
        entries[i].el_type == ElType::ButtonT,
        forall|q: int| 0 <= q < entries.len() && q != i ==> #[trigger] entries[q].id != "/"@ + id,
        forall|p: int| 0 <= p < id.len() ==> id[p] != '@',
    ensures
        ws_actions(entries, "/"@ + id) == seq![
            WsActionView::Invoke { index: i, text: Seq::<char>::empty(), value: 0 },
        ],
{
    reveal_strlit("/");
    let msg = "/"@ + id;
    assert forall|p: int| 0 <= p < msg.len() implies msg[p] != '@' by {
        if p > 0 {
            assert(msg[p] == id[p - 1]);
        }
    }
    crate::text::lemma_no_sep(msg);
    lemma_dispatch_single(entries, msg, None, i, entries.len() as int);
}

/// An event that carries a value: the page sends `/`, the element's id,
/// `@@` and the value. The one callback registered for that element does
/// what its kind does with the value (see `callback_actions`).
pub proof fn law_value_event(entries: Seq<CallbackView>, i: int, id: Seq<char>, v: Seq<char>)
    requires
        0 <= i < entries.len(),
        entries[i].id == "/"@ + id,
        forall|q: int| 0 <= q < entries.len() && q != i ==> #[trigger] entries[q].id != "/"@ + id,
        forall|p: int| 0 <= p < id.len() ==> id[p] != '@',
        forall|p: int| 0 <= p < v.len() ==> v[p] != '@',
        !ends_in_abort(callback_actions(i, entries[i].el_type, Some(v))),
    ensures
        ws_actions(entries, "/"@ + id + "@@"@ + v) == callback_actions(
            i,
            entries[i].el_type,
            Some(v),
        ),
{
    reveal_strlit("/");
    reveal_strlit("@@");
    let a = "/"@ + id;
    assert forall|p: int| 0 <= p < a.len() implies a[p] != '@' by {
        if p > 0 {
            assert(a[p] == id[p - 1]);
        }
    }
    assert("/"@ + id + "@@"@ + v =~= a + seq!['@', '@'] + v);
    crate::text::lemma_split_pair(a, v);
    lemma_dispatch_single(entries, a, Some(v), i, entries.len() as int);
}

/// A radio button group reports the position `k` of the chosen button
/// (its value is `k` in decimal); the group's one callback runs with that
/// text and with `k` as the number.
pub proof fn law_radio_round_trip(entries: Seq<CallbackView>, i: int, id: Seq<char>, k: i32)
    requires
        0 <= i < entries.len(),
        entries[i].id == "/"@ + id,
        entries[i].el_type == ElType::RadioT,
        forall|q: int| 0 <= q < entries.len() && q != i ==> #[trigger] entries[q].id != "/"@ + id,
        forall|p: int| 0 <= p < id.len() ==> id[p] != '@',
    ensures
        ws_actions(entries, "/"@ + id + "@@"@ + signed_decimal(k as int)) == seq![
            WsActionView::Invoke { index: i, text: signed_decimal(k as int), value: k },
        ],
{
    lemma_parse_signed_decimal(k);
    crate::text::lemma_signed_decimal_no_at(k as int);
    law_value_event(entries, i, id, signed_decimal(k as int));
}

/// The kinds of element whose callbacks run on an event.
pub open spec fn handled_kind(t: ElType) -> bool {
    t == ElType::ButtonT || t == ElType::ITextT || t == ElType::DDownT || t == ElType::FileInputT
        || t == ElType::RSliderT || t == ElType::RadioT
}

/// The handler runs of `s`, in order (what else `s` holds aside).
pub open spec fn invocations(s: Seq<WsActionView>) -> Seq<WsActionView>
    decreases s.len(),
{
    if s.len() == 0 {
        seq![]
    } else {
        invocations(s.drop_last()) + match s.last() {
            WsActionView::Invoke { .. } => seq![s.last()],
            WsActionView::InvokeWithFileName { .. } => seq![s.last()],
            _ => seq![],
        }
    }
}

/// One handler run for each of the first `j` callbacks that is addressed
/// `target` and of a kind that handles events, in registration order:
/// the run that its kind makes of `value` (see `callback_actions`).
pub open spec fn expected_invocations(
    entries: Seq<CallbackView>,
    target: Seq<char>,
    value: Option<Seq<char>>,
    j: int,
) -> Seq<WsActionView>
    decreases j,
{
    if j <= 0 {
        seq![]
    } else {
        expected_invocations(entries, target, value, j - 1) + if entries[j - 1].id == target
            && handled_kind(entries[j - 1].el_type) {
            seq![callback_actions(j - 1, entries[j - 1].el_type, value).last()]
        } else {
            seq![]
        }
    }
}

proof fn lemma_invocations_concat(a: Seq<WsActionView>, b: Seq<WsActionView>)
    ensures
        invocations(a + b) == invocations(a) + invocations(b),
    decreases b.len(),
{
    if b.len() == 0 {
        assert(a + b =~= a);
        assert(invocations(a) + invocations(b) =~= invocations(a));
    } else {
        lemma_invocations_concat(a, b.drop_last());
        assert((a + b).drop_last() =~= a + b.drop_last());
        assert(invocations(a + b) =~= invocations(a) + invocations(b));
    }
}

proof fn lemma_invocations_of_callback(i: int, t: ElType, value: Option<Seq<char>>)
    requires
        !ends_in_abort(callback_actions(i, t, value)),
    ensures
        invocations(callback_actions(i, t, value)) == if handled_kind(t) {
            seq![callback_actions(i, t, value).last()]
        } else {
            Seq::<WsActionView>::empty()
        },
{
    let ca = callback_actions(i, t, value);
    reveal_with_fuel(invocations, 3);
    if ca.len() == 2 {
        assert(ca.drop_last().drop_last() =~= Seq::<WsActionView>::empty());
    } else if ca.len() == 1 {
        assert(ca.drop_last() =~= Seq::<WsActionView>::empty());
    }
    assert(invocations(ca) =~= if handled_kind(t) {
        seq![ca.last()]
    } else {
        Seq::<WsActionView>::empty()
    });
}

proof fn lemma_dispatch_invocations(
    entries: Seq<CallbackView>,
    target: Seq<char>,
    value: Option<Seq<char>>,
    j: int,
)
    requires
        j <= entries.len(),
        forall|q: int|
            0 <= q < entries.len() && entries[q].id == target ==> !ends_in_abort(
                #[trigger] callback_actions(q, entries[q].el_type, value),
            ),
    ensures
        !ends_in_abort(dispatch_upto(entries, target, value, j)),
        invocations(dispatch_upto(entries, target, value, j)) == expected_invocations(
            entries,
            target,
            value,
            j,
        ),
    decreases j,
{
    if j > 0 {
        lemma_dispatch_invocations(entries, target, value, j - 1);
        let prev = dispatch_upto(entries, target, value, j - 1);
        if entries[j - 1].id == target {
            let ca = callback_actions(j - 1, entries[j - 1].el_type, value);
            lemma_invocations_concat(prev, ca);
            lemma_invocations_of_callback(j - 1, entries[j - 1].el_type, value);
            if ca.len() == 0 {
                assert(prev + ca =~= prev);
            } else {
                assert((prev + ca).last() == ca.last());
            }
            assert(invocations(prev + ca) =~= expected_invocations(entries, target, value, j));
        } else {
            assert(expected_invocations(entries, target, value, j) =~= expected_invocations(
                entries,
                target,
                value,
                j - 1,
            ));
        }
    } else {
        assert(invocations(dispatch_upto(entries, target, value, j)) =~= Seq::<
            WsActionView,
        >::empty());
    }
}

/// A message addressed to callbacks (its first piece starts with `/`)
/// whose value suits every callback at that address runs each such
/// callback of a handling kind exactly once, in registration order, with
/// the text and number its kind takes from the value, and runs no other.
pub proof fn law_dispatch_each_once(entries: Seq<CallbackView>, msg: Seq<char>)
    requires
        first_piece(msg).len() > 0,
        first_piece(msg)[0] == '/',
        forall|q: int|
            0 <= q < entries.len() && entries[q].id == first_piece(msg) ==> !ends_in_abort(
                #[trigger] callback_actions(q, entries[q].el_type, second_piece(msg)),
            ),
    ensures
        invocations(ws_actions(entries, msg)) == expected_invocations(
            entries,
            first_piece(msg),
            second_piece(msg),
            entries.len() as int,
        ),
{
    lemma_dispatch_invocations(
        entries,
        first_piece(msg),
        second_piece(msg),
        entries.len() as int,
    );
}

/// Enter in a text input: the page sends `/`, the input's id, `@@` and
/// the text typed, which may be empty. The one callback registered for
/// that input runs once with exactly that text and 0, and the thread goes
/// on.
pub proof fn law_text_input_event(entries: Seq<CallbackView>, i: int, id: Seq<char>, v: Seq<char>)
    requires
        0 <= i < entries.len(),
        entries[i].id == "/"@ + id,
        entries[i].el_type == ElType::ITextT,
        forall|q: int| 0 <= q < entries.len() && q != i ==> #[trigger] entries[q].id != "/"@ + id,
        forall|p: int| 0 <= p < id.len() ==> id[p] != '@',
        forall|p: int| 0 <= p < v.len() ==> v[p] != '@',
    ensures
        ws_actions(entries, "/"@ + id + "@@"@ + v) == seq![
            WsActionView::Invoke { index: i, text: v, value: 0 },
        ],
{
    law_value_event(entries, i, id, v);
}

/// A choice in a dropdown: the page sends `/`, the dropdown's id, `@@`
/// and the option chosen. The dropdown first shows that option as its
/// text, then its one callback runs once with the option and 0.
pub proof fn law_dropdown_event(entries: Seq<CallbackView>, i: int, id: Seq<char>, v: Seq<char>)
    requires
        0 <= i < entries.len(),
        entries[i].id == "/"@ + id,
        entries[i].el_type == ElType::DDownT,
        forall|q: int| 0 <= q < entries.len() && q != i ==> #[trigger] entries[q].id != "/"@ + id,
        forall|p: int| 0 <= p < id.len() ==> id[p] != '@',
        forall|p: int| 0 <= p < v.len() ==> v[p] != '@',
    ensures
        ws_actions(entries, "/"@ + id + "@@"@ + v) == seq![
            WsActionView::ChangeText { index: i, text: v },
            WsActionView::Invoke { index: i, text: v, value: 0 },
        ],
{
    law_value_event(entries, i, id, v);
}

/// A slider moved to `k`: the page sends `/`, the slider's id, `@@` and
/// `k` in decimal; the slider's one callback runs once with that text
/// and with `k` as the number.
pub proof fn law_slider_event(entries: Seq<CallbackView>, i: int, id: Seq<char>, k: i32)
    requires
        0 <= i < entries.len(),
        entries[i].id == "/"@ + id,
        entries[i].el_type == ElType::RSliderT,
        forall|q: int| 0 <= q < entries.len() && q != i ==> #[trigger] entries[q].id != "/"@ + id,
        forall|p: int| 0 <= p < id.len() ==> id[p] != '@',
    ensures
        ws_actions(entries, "/"@ + id + "@@"@ + signed_decimal(k as int)) == seq![
            WsActionView::Invoke { index: i, text: signed_decimal(k as int), value: k },
        ],
{
    lemma_parse_signed_decimal(k);
    crate::text::lemma_signed_decimal_no_at(k as int);
    law_value_event(entries, i, id, signed_decimal(k as int));
}

} // verus!
