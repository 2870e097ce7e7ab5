//! Charts drawn by the plotting library. Every number arrives already
//! written as text (two decimals, seven characters wide, as the page
//! expects), so what is built here is the chart's markup and script.
use crate::elem::{leaf_view, ElType, Elem};
use crate::gui::{str_views, GuiCfg};
use crate::templates::{MULTI_JS_0, MULTI_JS_1, MULTI_JS_10, MULTI_JS_11, MULTI_JS_12, MULTI_JS_2, MULTI_JS_3, MULTI_JS_4, MULTI_JS_5, MULTI_JS_6, MULTI_JS_7, MULTI_JS_8, MULTI_JS_9, MULTI_XY_JS_0, MULTI_XY_JS_1, MULTI_XY_JS_10, MULTI_XY_JS_11, MULTI_XY_JS_12, MULTI_XY_JS_13, MULTI_XY_JS_2, MULTI_XY_JS_3, MULTI_XY_JS_4, MULTI_XY_JS_5, MULTI_XY_JS_6, MULTI_XY_JS_7, MULTI_XY_JS_8, MULTI_XY_JS_9, PLOT_DIV_0, PLOT_DIV_1, PLOT_JS_0, PLOT_JS_1, PLOT_JS_10, PLOT_JS_11, PLOT_JS_12, PLOT_JS_13, PLOT_JS_14, PLOT_JS_15, PLOT_JS_16, PLOT_JS_2, PLOT_JS_3, PLOT_JS_4, PLOT_JS_5, PLOT_JS_6, PLOT_JS_7, PLOT_JS_8, PLOT_JS_9, TRACE_XY_0, TRACE_XY_1, TRACE_XY_2, TRACE_XY_3, TRACE_XY_4, TRACE_XY_5, TRACE_Y_0, TRACE_Y_1, TRACE_Y_2, TRACE_Y_3, TRACE_Y_4};
use crate::text::{i32_to_decimal, signed_decimal, string_views};
use vstd::prelude::*;
use vstd::string::*;

verus! {

/// Each value followed by `, `.
pub open spec fn num_items(vals: Seq<Seq<char>>) -> Seq<char>
    decreases vals.len(),
{
    if vals.len() == 0 {
        seq![]
    } else {
        num_items(vals.drop_last()) + vals.last() + ", "@
    }
}

/// Each value in double quotes followed by `, `.
pub open spec fn quoted_items(vals: Seq<Seq<char>>) -> Seq<char>
    decreases vals.len(),
{
    if vals.len() == 0 {
        seq![]
    } else {
        quoted_items(vals.drop_last()) + "\""@ + vals.last() + "\", "@
    }
}

/// A script array of numbers.
pub open spec fn num_list(vals: Seq<Seq<char>>) -> Seq<char> {
    "["@ + num_items(vals) + "]"@
}

/// A script array of strings.
pub open spec fn quoted_list(vals: Seq<Seq<char>>) -> Seq<char> {
    "["@ + quoted_items(vals) + "]"@
}

pub open spec fn plot_div(id: Seq<char>) -> Seq<char> {
    PLOT_DIV_0@ + id + PLOT_DIV_1@
}

/// The script of a chart with one trace.
pub open spec fn plot_js(
    id: Seq<char>,
    xs: Seq<char>,
    ys: Seq<char>,
    p_type: Seq<char>,
    mode: Seq<char>,
    title: Seq<char>,
    x_title: Seq<char>,
    y_title: Seq<char>,
    width: i32,
    height: i32,
) -> Seq<char> {
    PLOT_JS_0@ + id + PLOT_JS_1@ + id + PLOT_JS_2@ + id + PLOT_JS_3@ + xs + PLOT_JS_4@ + ys
        + PLOT_JS_5@ + p_type + PLOT_JS_6@ + mode + PLOT_JS_7@ + id + PLOT_JS_8@ + title
        + PLOT_JS_9@ + x_title + PLOT_JS_10@ + y_title + PLOT_JS_11@ + signed_decimal(
        width as int,
    ) + PLOT_JS_12@ + signed_decimal(height as int) + PLOT_JS_13@ + id + PLOT_JS_14@ + id
        + PLOT_JS_15@ + id + PLOT_JS_16@
}

/// The traces of a chart with one trace per line of `ys`, each carrying
/// all the values of its line.
pub open spec fn y_traces(
    ys: Seq<Seq<Seq<char>>>,
    names: Seq<Seq<char>>,
    p_type: Seq<char>,
    mode: Seq<char>,
) -> Seq<char>
    decreases ys.len(),
{
    if ys.len() == 0 {
        seq![]
    } else {
        let line = ys.len() - 1;
        y_traces(ys.drop_last(), names, p_type, mode) + TRACE_Y_0@ + num_list(ys.last())
            + TRACE_Y_1@ + p_type + TRACE_Y_2@ + mode + TRACE_Y_3@ + names[line] + TRACE_Y_4@
    }
}

/// The traces of a chart with one trace per line of `ys` against `xs`:
/// each carries all of `xs` and the first `xs.len()` values of its line.
pub open spec fn xy_traces(
    xs: Seq<Seq<char>>,
    ys: Seq<Seq<Seq<char>>>,
    names: Seq<Seq<char>>,
    p_type: Seq<char>,
    mode: Seq<char>,
) -> Seq<char>
    decreases ys.len(),
{
    if ys.len() == 0 {
        seq![]
    } else {
        let line = ys.len() - 1;
        xy_traces(xs, ys.drop_last(), names, p_type, mode) + TRACE_XY_0@ + num_list(xs)
            + TRACE_XY_1@ + num_list(ys.last().take(xs.len() as int)) + TRACE_XY_2@ + p_type
            + TRACE_XY_3@ + mode + TRACE_XY_4@ + names[line] + TRACE_XY_5@
    }
}

pub open spec fn multi_js(
    id: Seq<char>,
    data: Seq<char>,
    title: Seq<char>,
    y_title: Seq<char>,
    width: i32,
    height: i32,
) -> Seq<char> {
    MULTI_JS_0@ + id + MULTI_JS_1@ + id + MULTI_JS_2@ + id + MULTI_JS_3@ + data + MULTI_JS_4@ + id
        + MULTI_JS_5@ + title + MULTI_JS_6@ + y_title + MULTI_JS_7@ + signed_decimal(width as int)
        + MULTI_JS_8@ + signed_decimal(height as int) + MULTI_JS_9@ + id + MULTI_JS_10@ + id
        + MULTI_JS_11@ + id + MULTI_JS_12@
}

pub open spec fn multi_xy_js(
    id: Seq<char>,
    data: Seq<char>,
    title: Seq<char>,
    x_title: Seq<char>,
    y_title: Seq<char>,
    width: i32,
    height: i32,
) -> Seq<char> {
    MULTI_XY_JS_0@ + id + MULTI_XY_JS_1@ + id + MULTI_XY_JS_2@ + id + MULTI_XY_JS_3@ + data
        + MULTI_XY_JS_4@ + id + MULTI_XY_JS_5@ + title + MULTI_XY_JS_6@ + x_title + MULTI_XY_JS_7@
        + y_title + MULTI_XY_JS_8@ + signed_decimal(width as int) + MULTI_XY_JS_9@
        + signed_decimal(height as int) + MULTI_XY_JS_10@ + id + MULTI_XY_JS_11@ + id
        + MULTI_XY_JS_12@ + id + MULTI_XY_JS_13@
}

pub open spec fn nested_views(v: Seq<Vec<String>>) -> Seq<Seq<Seq<char>>> {
    v.map_values(|l: Vec<String>| string_views(l@))
}

/// The script array of the first `n` of `vals`, numbers or strings.
fn list_of(vals: &Vec<String>, n: usize, quoted: bool) -> (s: String)
    requires
        n <= vals@.len(),
    ensures
        s@ == if quoted {
            quoted_list(string_views(vals@).take(n as int))
        } else {
            num_list(string_views(vals@).take(n as int))
        },
{
    let ghost v = string_views(vals@);
    let mut s = String::from_str("[");
    let mut i: usize = 0;
    assert(v.take(0) =~= Seq::<Seq<char>>::empty());
    while i < n
        invariant
            i <= n <= vals@.len(),
            v == string_views(vals@),
            s@ == "["@ + if quoted {
                quoted_items(v.take(i as int))
            } else {
                num_items(v.take(i as int))
            },
        decreases n - i,
    {
        if quoted {
            s.append("\"");
            s.append(vals[i].as_str());
            s.append("\", ");
        } else {
            s.append(vals[i].as_str());
            s.append(", ");
        }
        assert(v.take(i + 1).drop_last() =~= v.take(i as int));
        i = i + 1;
    }
    s.append("]");
    s
}

impl GuiCfg {
    /// A chart element with id `id` and one trace of x and y values.
    fn ply_plot(
        &self,
        id: &str,
        x_str: &str,
        y_str: &str,
        p_type: &str,
        mode: &str,
        title: &str,
        x_title: &str,
        y_title: &str,
        width: i32,
        height: i32,
    ) -> (e: Elem)
        ensures
            e@ == leaf_view(
                ElType::ParagraphT,
                id@,
                plot_div(id@),
                seq![],
                plot_js(id@, x_str@, y_str@, p_type@, mode@, title@, x_title@, y_title@, width, height),
            ),
    {
        let mut h = String::from_str(PLOT_DIV_0);
        h.append(id);
        h.append(PLOT_DIV_1);
        let w = i32_to_decimal(width);
        let ht = i32_to_decimal(height);
        let mut js = String::from_str(PLOT_JS_0);
        js.append(id);
        js.append(PLOT_JS_1);
        js.append(id);
        js.append(PLOT_JS_2);
        js.append(id);
        js.append(PLOT_JS_3);
        js.append(x_str);
        js.append(PLOT_JS_4);
        js.append(y_str);
        js.append(PLOT_JS_5);
        js.append(p_type);
        js.append(PLOT_JS_6);
        js.append(mode);
        js.append(PLOT_JS_7);
        js.append(id);
        js.append(PLOT_JS_8);
        js.append(title);
        js.append(PLOT_JS_9);
        js.append(x_title);
        js.append(PLOT_JS_10);
        js.append(y_title);
        js.append(PLOT_JS_11);
        js.append(w.as_str());
        js.append(PLOT_JS_12);
        js.append(ht.as_str());
        js.append(PLOT_JS_13);
        js.append(id);
        js.append(PLOT_JS_14);
        js.append(id);
        js.append(PLOT_JS_15);
        js.append(id);
        js.append(PLOT_JS_16);
        self.leaf(ElType::ParagraphT, String::from_str(id), h, String::new(), js)
    }

    /// A chart of numeric x and numeric y values (y taken for each x).
    fn ply_plotnumnum(
        &self,
        id: &str,
        x_vec: &Vec<String>,
        y_vec: &Vec<String>,
        p_type: &str,
        mode: &str,
        title: &str,
        x_title: &str,
        y_title: &str,
        width: i32,
        height: i32,
    ) -> (e: Elem)
        requires
            y_vec@.len() >= x_vec@.len(),
        ensures
            e@ == leaf_view(
                ElType::ParagraphT,
                id@,
                plot_div(id@),
                seq![],
                plot_js(
                    id@,
                    num_list(string_views(x_vec@)),
                    num_list(string_views(y_vec@).take(x_vec@.len() as int)),
                    p_type@,
                    mode@,
                    title@,
                    x_title@,
                    y_title@,
                    width,
                    height,
                ),
            ),
    {
        assert(string_views(x_vec@).take(x_vec@.len() as int) =~= string_views(x_vec@));
        let x_str = list_of(x_vec, x_vec.len(), false);
        let y_str = list_of(y_vec, x_vec.len(), false);
        self.ply_plot(
            id,
            x_str.as_str(),
            y_str.as_str(),
            p_type,
            mode,
            title,
            x_title,
            y_title,
            width,
            height,
        )
    }

    /// A chart of string x and numeric y values (y taken for each x).
    fn ply_plotstrnum(
        &self,
        id: &str,
        x_vec: &Vec<String>,
        y_vec: &Vec<String>,
        p_type: &str,
        mode: &str,
        title: &str,
        x_title: &str,
        y_title: &str,
        width: i32,
        height: i32,
    ) -> (e: Elem)
        requires
            y_vec@.len() >= x_vec@.len(),
        ensures
            e@ == leaf_view(
                ElType::ParagraphT,
                id@,
                plot_div(id@),
                seq![],
                plot_js(
                    id@,
                    quoted_list(string_views(x_vec@)),
                    num_list(string_views(y_vec@).take(x_vec@.len() as int)),
                    p_type@,
                    mode@,
                    title@,
                    x_title@,
                    y_title@,
                    width,
                    height,
                ),
            ),
    {
        assert(string_views(x_vec@).take(x_vec@.len() as int) =~= string_views(x_vec@));
        let x_str = list_of(x_vec, x_vec.len(), true);
        let y_str = list_of(y_vec, x_vec.len(), false);
        self.ply_plot(
            id,
            x_str.as_str(),
            y_str.as_str(),
            p_type,
            mode,
            title,
            x_title,
            y_title,
            width,
            height,
        )
    }

    /// A chart of numeric x and string y values (y taken for each x).
    fn ply_plotnumstr(
        &self,
        id: &str,
        x_vec: &Vec<String>,
        y_vec: &Vec<String>,
        p_type: &str,
        mode: &str,
        title: &str,
        x_title: &str,
        y_title: &str,
        width: i32,
        height: i32,
    ) -> (e: Elem)
        requires
            y_vec@.len() >= x_vec@.len(),
        ensures
            e@ == leaf_view(
                ElType::ParagraphT,
                id@,
                plot_div(id@),
                seq![],
                plot_js(
                    id@,
                    num_list(string_views(x_vec@)),
                    quoted_list(string_views(y_vec@).take(x_vec@.len() as int)),
                    p_type@,
                    mode@,
                    title@,
                    x_title@,
                    y_title@,
                    width,
                    height,
                ),
            ),
    {
        assert(string_views(x_vec@).take(x_vec@.len() as int) =~= string_views(x_vec@));
        let x_str = list_of(x_vec, x_vec.len(), false);
        let y_str = list_of(y_vec, x_vec.len(), true);
        self.ply_plot(
            id,
            x_str.as_str(),
            y_str.as_str(),
            p_type,
            mode,
            title,
            x_title,
            y_title,
            width,
            height,
        )
    }

    /// A chart with one trace per line of `y_vec`, named by `trace_names`.
    fn ply_plotnummulti(
        &self,
        id: &str,
        y_vec: &Vec<Vec<String>>,
        trace_names: &Vec<&str>,
        p_type: &str,
        mode: &str,
        title: &str,
        y_title: &str,
        width: i32,
        height: i32,
    ) -> (e: Elem)
        requires
            trace_names@.len() >= y_vec@.len(),
        ensures
            e@ == leaf_view(
                ElType::ParagraphT,
                id@,
                plot_div(id@),
                seq![],
                multi_js(
                    id@,
                    "["@ + y_traces(
                        nested_views(y_vec@),
                        str_views(trace_names@),
                        p_type@,
                        mode@,
                    ) + "]"@,
                    title@,
                    y_title@,
                    width,
                    height,
                ),
            ),
    {
        let n = y_vec.len();
        let ghost ys = nested_views(y_vec@);
        let ghost names = str_views(trace_names@);
        let mut data = String::from_str("[");
        let mut line: usize = 0;
        assert(ys.take(0) =~= Seq::<Seq<Seq<char>>>::empty());
        while line < n
            invariant
                line <= n,
                n == y_vec@.len(),
                ys == nested_views(y_vec@),
                names == str_views(trace_names@),
                trace_names@.len() >= n,
                data@ == "["@ + y_traces(ys.take(line as int), names, p_type@, mode@),
            decreases n - line,
        {
            let y_str = list_of(&y_vec[line], y_vec[line].len(), false);
            data.append(TRACE_Y_0);
            data.append(y_str.as_str());
            data.append(TRACE_Y_1);
            data.append(p_type);
            data.append(TRACE_Y_2);
            data.append(mode);
            data.append(TRACE_Y_3);
            data.append(trace_names[line]);
            data.append(TRACE_Y_4);
            proof {
                let t1 = ys.take(line + 1);
                let lv = string_views(y_vec@[line as int]@);
                assert(t1.drop_last() =~= ys.take(line as int));
                assert(t1.last() == lv);
                assert(lv.take(lv.len() as int) =~= lv);
            }
            line = line + 1;
        }
        assert(ys.take(n as int) =~= ys);
        data.append("]");
        let w = i32_to_decimal(width);
        let ht = i32_to_decimal(height);
        let mut h = String::from_str(PLOT_DIV_0);
        h.append(id);
        h.append(PLOT_DIV_1);
        let d = data.as_str();
        let mut js = String::from_str(MULTI_JS_0);
        js.append(id);
        js.append(MULTI_JS_1);
        js.append(id);
        js.append(MULTI_JS_2);
        js.append(id);
        js.append(MULTI_JS_3);
        js.append(d);
        js.append(MULTI_JS_4);
        js.append(id);
        js.append(MULTI_JS_5);
        js.append(title);
        js.append(MULTI_JS_6);
        js.append(y_title);
        js.append(MULTI_JS_7);
        js.append(w.as_str());
        js.append(MULTI_JS_8);
        js.append(ht.as_str());
        js.append(MULTI_JS_9);
        js.append(id);
        js.append(MULTI_JS_10);
        js.append(id);
        js.append(MULTI_JS_11);
        js.append(id);
        js.append(MULTI_JS_12);
        self.leaf(ElType::ParagraphT, String::from_str(id), h, String::new(), js)
    }

    /// A chart with one trace per line of `y_vec` against the x values,
    /// named by `trace_names`.
    fn ply_plotnumnummulti(
        &self,
        id: &str,
        x_vec: &Vec<String>,
        y_vec: &Vec<Vec<String>>,
        trace_names: &Vec<&str>,
        p_type: &str,
        mode: &str,
        title: &str,
        x_title: &str,
        y_title: &str,
        width: i32,
        height: i32,
    ) -> (e: Elem)
        requires
            forall|l: int| 0 <= l < y_vec@.len() ==> #[trigger] y_vec@[l]@.len() >= x_vec@.len(),
            trace_names@.len() >= y_vec@.len(),
        ensures
            e@ == leaf_view(
                ElType::ParagraphT,
                id@,
                plot_div(id@),
                seq![],
                multi_xy_js(
                    id@,
                    "["@ + xy_traces(
                        string_views(x_vec@),
                        nested_views(y_vec@),
                        str_views(trace_names@),
                        p_type@,
                        mode@,
                    ) + "]"@,
                    title@,
                    x_title@,
                    y_title@,
                    width,
                    height,
                ),
            ),
    {
        let n = y_vec.len();
        let ghost ys = nested_views(y_vec@);
        let ghost xs = string_views(x_vec@);
        let ghost names = str_views(trace_names@);
        let mut data = String::from_str("[");
        let mut line: usize = 0;
        assert(xs.take(xs.len() as int) =~= xs);
        let x_str = list_of(x_vec, x_vec.len(), false);
        assert(ys.take(0) =~= Seq::<Seq<Seq<char>>>::empty());
        while line < n
            invariant
                line <= n,
                n == y_vec@.len(),
                ys == nested_views(y_vec@),
                xs == string_views(x_vec@),
                x_str@ == num_list(xs),
                names == str_views(trace_names@),
                trace_names@.len() >= n,
                forall|l: int| 0 <= l < n ==> #[trigger] y_vec@[l]@.len() >= x_vec@.len(),
                data@ == "["@ + xy_traces(xs, ys.take(line as int), names, p_type@, mode@),
            decreases n - line,
        {
            let y_str = list_of(&y_vec[line], x_vec.len(), false);
            data.append(TRACE_XY_0);
            data.append(x_str.as_str());
            data.append(TRACE_XY_1);
            data.append(y_str.as_str());
            data.append(TRACE_XY_2);
            data.append(p_type);
            data.append(TRACE_XY_3);
            data.append(mode);
            data.append(TRACE_XY_4);
            data.append(trace_names[line]);
            data.append(TRACE_XY_5);
            proof {
                let t1 = ys.take(line + 1);
                assert(t1.drop_last() =~= ys.take(line as int));
                assert(t1.last() == string_views(y_vec@[line as int]@));
            }
            line = line + 1;
        }
        assert(ys.take(n as int) =~= ys);
        data.append("]");
        let w = i32_to_decimal(width);
        let ht = i32_to_decimal(height);
        let mut h = String::from_str(PLOT_DIV_0);
        h.append(id);
        h.append(PLOT_DIV_1);
        let d = data.as_str();
        let mut js = String::from_str(MULTI_XY_JS_0);
        js.append(id);
        js.append(MULTI_XY_JS_1);
        js.append(id);
        js.append(MULTI_XY_JS_2);
        js.append(id);
        js.append(MULTI_XY_JS_3);
        js.append(d);
        js.append(MULTI_XY_JS_4);
        js.append(id);
        js.append(MULTI_XY_JS_5);
        js.append(title);
        js.append(MULTI_XY_JS_6);
        js.append(x_title);
        js.append(MULTI_XY_JS_7);
        js.append(y_title);
        js.append(MULTI_XY_JS_8);
        js.append(w.as_str());
        js.append(MULTI_XY_JS_9);
        js.append(ht.as_str());
        js.append(MULTI_XY_JS_10);
        js.append(id);
        js.append(MULTI_XY_JS_11);
        js.append(id);
        js.append(MULTI_XY_JS_12);
        js.append(id);
        js.append(MULTI_XY_JS_13);
        self.leaf(ElType::ParagraphT, String::from_str(id), h, String::new(), js)
    }

    /// A line chart of y against x.
    pub fn plot_line_new(
        &mut self,
        x: &Vec<String>,
        y: &Vec<String>,
        title: &str,
        x_title: &str,
        y_title: &str,
        width: i32,
        height: i32,
    ) -> (e: Elem)
        requires
            old(self)@.id_count < i32::MAX,
            y@.len() >= x@.len(),
        ensures
            final(self)@ == old(self)@.advance(1),
            e@ == leaf_view(
                ElType::ParagraphT,
                old(self)@.next_id(1),
                plot_div(old(self)@.next_id(1)),
                seq![],
                plot_js(
                    old(self)@.next_id(1),
                    num_list(string_views(x@)),
                    num_list(string_views(y@).take(x@.len() as int)),
                    ""@,
                    "lines"@,
                    title@,
                    x_title@,
                    y_title@,
                    width,
                    height,
                ),
            ),
    {
        let id = self.id_new();
        self.ply_plotnumnum(id.as_str(), x, y, "", "lines", title, x_title, y_title, width, height)
    }

    /// A scatter chart of y against x.
    pub fn plot_scatter_new(
        &mut self,
        x: &Vec<String>,
        y: &Vec<String>,
        title: &str,
        x_title: &str,
        y_title: &str,
        width: i32,
        height: i32,
    ) -> (e: Elem)
        requires
            old(self)@.id_count < i32::MAX,
            y@.len() >= x@.len(),
        ensures
            final(self)@ == old(self)@.advance(1),
            e@ == leaf_view(
                ElType::ParagraphT,
                old(self)@.next_id(1),
                plot_div(old(self)@.next_id(1)),
                seq![],
                plot_js(
                    old(self)@.next_id(1),
                    num_list(string_views(x@)),
                    num_list(string_views(y@).take(x@.len() as int)),
                    "scatter"@,
                    "markers"@,
                    title@,
                    x_title@,
                    y_title@,
                    width,
                    height,
                ),
            ),
    {
        let id = self.id_new();
        self.ply_plotnumnum(id.as_str(), x, y, "scatter", "markers", title, x_title, y_title, width, height)
    }

    /// A vertical bar chart: one bar per label in x.
    pub fn plot_vbar_new(
        &mut self,
        x: &Vec<String>,
        y: &Vec<String>,
        title: &str,
        x_title: &str,
        y_title: &str,
        width: i32,
        height: i32,
    ) -> (e: Elem)
        requires
            old(self)@.id_count < i32::MAX,
            y@.len() >= x@.len(),
        ensures
            final(self)@ == old(self)@.advance(1),
            e@ == leaf_view(
                ElType::ParagraphT,
                old(self)@.next_id(1),
                plot_div(old(self)@.next_id(1)),
                seq![],
                plot_js(
                    old(self)@.next_id(1),
                    quoted_list(string_views(x@)),
                    num_list(string_views(y@).take(x@.len() as int)),
                    "bar"@,
                    "s"@,
                    title@,
                    x_title@,
                    y_title@,
                    width,
                    height,
                ),
            ),
    {
        let id = self.id_new();
        self.ply_plotstrnum(id.as_str(), x, y, "bar", "s", title, x_title, y_title, width, height)
    }

    /// A horizontal bar chart: one bar per label in y.
    pub fn plot_hbar_new(
        &mut self,
        x: &Vec<String>,
        y: &Vec<String>,
        title: &str,
        x_title: &str,
        y_title: &str,
        width: i32,
        height: i32,
    ) -> (e: Elem)
        requires
            old(self)@.id_count < i32::MAX,
            y@.len() >= x@.len(),
        ensures
            final(self)@ == old(self)@.advance(1),
            e@ == leaf_view(
                ElType::ParagraphT,
                old(self)@.next_id(1),
                plot_div(old(self)@.next_id(1)),
                seq![],
                plot_js(
                    old(self)@.next_id(1),
                    num_list(string_views(x@)),
                    quoted_list(string_views(y@).take(x@.len() as int)),
                    "bar"@,
                    "s"@,
                    title@,
                    x_title@,
                    y_title@,
                    width,
                    height,
                ),
            ),
    {
        let id = self.id_new();
        self.ply_plotnumstr(id.as_str(), x, y, "bar", "s", title, x_title, y_title, width, height)
    }

    /// A line chart with one line per row of y, named by `trace_names`,
    /// against the x values.
    pub fn plot_line_multiy_new(
        &mut self,
        x: &Vec<String>,
        y: &Vec<Vec<String>>,
        title: &str,
        trace_names: &Vec<&str>,
        x_title: &str,
        y_title: &str,
        width: i32,
        height: i32,
    ) -> (e: Elem)
        requires
            old(self)@.id_count < i32::MAX,
            forall|l: int| 0 <= l < y@.len() ==> #[trigger] y@[l]@.len() >= x@.len(),
            trace_names@.len() >= y@.len(),
        ensures
            final(self)@ == old(self)@.advance(1),
            e@ == leaf_view(
                ElType::ParagraphT,
                old(self)@.next_id(1),
                plot_div(old(self)@.next_id(1)),
                seq![],
                multi_xy_js(
                    old(self)@.next_id(1),
                    "["@ + xy_traces(
                        string_views(x@),
                        nested_views(y@),
                        str_views(trace_names@),
                        ""@,
                        "lines"@,
                    ) + "]"@,
                    title@,
                    x_title@,
                    y_title@,
                    width,
                    height,
                ),
            ),
    {
        let id = self.id_new();
        self.ply_plotnumnummulti(
            id.as_str(),
            x,
            y,
            trace_names,
            "",
            "lines",
            title,
            x_title,
            y_title,
            width,
            height,
        )
    }

    /// A box plot with one box per row of y, named by `trace_names`.
    pub fn plot_boxplot_new(
        &mut self,
        y: &Vec<Vec<String>>,
        title: &str,
        trace_names: &Vec<&str>,
        y_title: &str,
        width: i32,
        height: i32,
    ) -> (e: Elem)
        requires
            old(self)@.id_count < i32::MAX,
            trace_names@.len() >= y@.len(),
        ensures
            final(self)@ == old(self)@.advance(1),
            e@ == leaf_view(
                ElType::ParagraphT,
                old(self)@.next_id(1),
                plot_div(old(self)@.next_id(1)),
                seq![],
                multi_js(
                    old(self)@.next_id(1),
                    "["@ + y_traces(
                        nested_views(y@),
                        str_views(trace_names@),
                        "box"@,
                        ""@,
                    ) + "]"@,
                    title@,
                    y_title@,
                    width,
                    height,
                ),
            ),
    {
        let id = self.id_new();
        self.ply_plotnummulti(id.as_str(), y, trace_names, "box", "", title, y_title, width, height)
    }
}

} // verus!
