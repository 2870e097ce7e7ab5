// Each builder is held against the markup and script that the page
// expects, written out with `format!` from the same templates.
use rwui::{ColSpans, ElType, Elem, GuiCfg};

#[allow(dead_code)]
fn bg_image_body(filename: &str, opacity_perc: i32) -> String {
    format!(
                r#"
        document.body.style.backgroundImage = "url('static/{}')";	
		document.body.style.backgroundSize = "cover";	
		document.body.style.opacity = "{}{}";	
        "#,
                filename, opacity_perc, '%'
            )
}

#[allow(dead_code)]
fn bg_image_elem(id: &str, filename: &str, opacity_perc: i32) -> String {
    format!(
                r#"
		var item = document.getElementById("{}");
		item.style.backgroundImage = "url('static/{}')";		
		item.style.backgroundSize = "cover";	
		item.style.opacity = "{}{}";		
        "#,
                id, filename, opacity_perc, '%'
            )
}

#[allow(dead_code)]
fn bg_color_body(text: &str) -> String {
    format!(
                r#"
            document.body.style.backgroundColor = "{}";		
            "#,
                text
            )
}

#[allow(dead_code)]
fn bg_color_elem(id: &str, text: &str) -> String {
    format!(
                r#"
            var item = document.getElementById("{}");
            item.style.backgroundColor = "{}";		
            "#,
                id, text
            )
}

#[allow(dead_code)]
fn color_js(id: &str, text: &str) -> String {
    format!(
            r#"
        var item = document.getElementById("{}");
        item.style.color = "{}";		
        "#,
            id, text
        )
}

#[allow(dead_code)]
fn font_size_js(id: &str, text: &str) -> String {
    format!(
            r#"
        var item = document.getElementById("{}");
        item.style.fontSize = "{}";		
            "#,
            id, text
        )
}

#[allow(dead_code)]
fn font_family_js(id: &str, text: &str) -> String {
    format!(
            r#"
        var item = document.getElementById("{}");
        item.style.fontFamily = "{}";		
            "#,
            id, text
        )
}

#[allow(dead_code)]
fn page_head(title: &str) -> String {
    format!(
            r#"
            <!DOCTYPE html>
            <html lang="en">
        
            <head>
            <title>{}</title>
            <meta name="viewport" content="width=device-width, initial-scale=1">
        
            <!-- -->
            <link href="static/bootstrap/css/bootstrap.css" rel="stylesheet" media="screen">
            <link href="static/web2.css" rel="stylesheet">            
            <!-- 
            <link href="https://cdn.jsdelivr.net/npm/bootstrap@5.3.2/dist/css/bootstrap.min.css" rel="stylesheet" integrity="sha384-T3c6CoIi6uLrA9TneNEoa7RxnatzjcDSCmG1MXxSR1GAsXEV/Dwwykc2MPK8M2HN" crossorigin="anonymous"> 
            -->
        
            </head>
        
            <body>
            <!-- -->
            <script type="text/javascript" src="static/bootstrap/js/bootstrap.bundle.js"></script>            
            <!--
            <script src="https://cdn.jsdelivr.net/npm/bootstrap@5.3.3/dist/js/bootstrap.bundle.min.js" integrity="sha384-YvpcrYf0tY3lHB60NNkmXc5s9fDVZLESaAA55NDzOxhy9GkcIdslK1eN7N6jIeHz" crossorigin="anonymous"></script> 
            -->
            "#,
            title
        )
}

#[allow(dead_code)]
fn ws_js(ws_url: &str) -> String {
    format!(
            r#"
            var addr1 = "ws://" + "{}";
            conn_ws = new WebSocket(addr1);
            conn_ws.onmessage = function (evt) {{
                var messages = evt.data.split('@');
                var type = messages[0];
                var id = messages[1];
                var item = document.getElementById(id);
                if (type === "TEXT") {{
                    item.innerHTML = messages[2];
                }}
                else if (type === "COLOR") {{
                    var color = messages[2];
                    item.style.color = color;
                }}
                else if (type === "BCOLOR") {{
                    var color = messages[2];
                    item.style.backgroundColor  = color;
                }}
                else if (type === "FONTSIZE") {{
                    var fsize = messages[2];
                    item.style.fontSize  = fsize;
                }}
                else if (type === "FONTFAMILY") {{
                    var font = messages[2];
                    item.style.fontFamily  = font;
                }}
                else if (type === "MODALSHOW") {{
                    var modal = new bootstrap.Modal(item, {{
                        keyboard: false
                      }}); 
                    modal.show();
                }}
                else if (type === "ENABLE") {{
                    var enable = messages[2];
                    if (enable === "ENABLE") {{
                        item.disabled = false;
                    }}
                    else  {{
                        item.disabled = true;
                    }}
                }}
                else if (type === "IMAGE") {{
                    src = 'static/' + messages[2]; 
                    item.src = src;
                }}
                else if (type === "PREDRAWY") {{
                    var len = parseInt(messages[2], 10);
                    var yVec = new Float32Array(len);
                    for (ind = 0; ind < len; ind++) {{
                        yVec[ind] = parseFloat(messages[3+ind]);
                    }}
                    window["data" + id][0].y = yVec;
                    Plotly.newPlot(window["PLOT"+id], window["data"+id], window["layout"+id]);
                }}
                else if (type === "PREDRAWXSY") {{
                    var len = parseInt(messages[2], 10);
                    var yVec = new Float32Array(len);
                    var xVec = new Array(len);;
                    for (ind = 0; ind < len; ind++) {{
                        yVec[ind] = parseFloat(messages[3+ind]);
                    }}
                    for (ind = 0; ind < len; ind++) {{
                        xVec[ind] = messages[len+3+ind];
                    }}
                    window["data" + id][0].y = yVec;
                    window["data" + id][0].x = xVec;
                    Plotly.newPlot(window["PLOT"+id], window["data"+id], window["layout"+id]);
                }}
                else if (type === "CLICK") {{
                    var fun = window[id+"_func"];
                    fun();
                    //item.click();
                }}
            }};
            window.onbeforeunload = function(e) {{
                conn_ws.send("CLOSE");
            }};
        
            "#,
            ws_url
        )
}

#[allow(dead_code)]
fn button_html(b_type: &str, id: &str, text: &str) -> String {
    format!(
            r#"
            <button type="button" class="btn btn-{} m-2" id="{}" onclick="{}_func()">
            <span id="{}text">{}</span></button>
            "#,
            b_type, id, id, id, text
        )
}

#[allow(dead_code)]
fn button_js(id: &str) -> String {
    format!(
            r#"
        function {}_func() {{
            conn_ws.send("/{}");
        }}
        "#,
            id, id
        )
}

#[allow(dead_code)]
fn icon_html(b_type: &str, id: &str, icon_name: &str, text: &str) -> String {
    format!(
            r#"
        <button type="button" class="btn btn-{} m-2" id="{}" onclick="{}_func()">
        <span class="btn-label">
        <img src="static/bootstrap-icons/{}.svg" alt="" width="16" height="16"></i></span>
        <span id="{}text">{}</span></button>
            "#,
            b_type, id, id, icon_name, id, text
        )
}

#[allow(dead_code)]
fn icon_js(id: &str) -> String {
    format!(
            r#"
    function {}_func() {{
        conn_ws.send("/{}");
    }}
    "#,
            id, id
        )
}

#[allow(dead_code)]
fn label_html(id: &str, text: &str) -> String {
    format!(
            r#"
            <label class="m-2" id={}>{}</label>
            "#,
            id, text
        )
}

#[allow(dead_code)]
fn dd_head(b_type: &str, id: &str, text: &str) -> String {
    format!(
            r#"
        <div class="dropdown">
        <button class="btn btn-{} m-2 dropdown-toggle" role="button" id="{}" data-bs-toggle="dropdown" aria-expanded="false" >
      {}
        </button>
        <ul class="dropdown-menu" id="{}" onclick="{}_func(event)">
        "#,
            b_type, id, text, id, id
        )
}

#[allow(dead_code)]
fn dd_item(h_text: &str, elem: &str) -> String {
    format!(
                r#"{}<li><a class="dropdown-item" href="{}">{}</a></li>
            "#,
                h_text, "#", elem
            )
}

#[allow(dead_code)]
fn dd_tail(h_text: &str) -> String {
    format!(
            r#"{}</ul>
        </div>
        "#,
            h_text
        )
}

#[allow(dead_code)]
fn dd_js(id: &str) -> String {
    format!(
            r#"
        function {}_func(e) {{
            var val = e.target.innerHTML;
            conn_ws.send("/{}@@" + val);
        }}
        "#,
            id, id
        )
}

#[allow(dead_code)]
fn input_html(id: &str, placeholder: &str) -> String {
    format!(
            r#"
        <input type="text" class="m-2" id="{}" name="{}" placeholder="{}" style="text-align: right;" onkeypress="{}_func(event)">
    "#,
            id, id, placeholder, id
        )
}

#[allow(dead_code)]
fn input_js(id: &str) -> String {
    format!(
            r#"
    function {}_func(e) {{
        if(e.keyCode == 13) {{
            var val = document.getElementById("{}").value;
            conn_ws.send("/{}@@" + val);
        }}
    }}
    "#,
            id, id, id
        )
}

#[allow(dead_code)]
fn file_html(id: &str, text: &str) -> String {
    format!(
            r#"
            <div class="input-group m-2">
  	<button class="btn btn-outline-secondary" type="button" id="{}" onclick="{}_func()">{}</button>
  	<input type="file" class="form-control" id="{}file" aria-describedby="{}" aria-label="Upload">
    </div>
    "#,
            id, id, text, id, id
        )
}

#[allow(dead_code)]
fn file_js(id: &str) -> String {
    format!(
            r#"
    function {}_func(e) {{
        var val = document.getElementById("{}file").value;
        conn_ws.send("/{}@@" + val);
    }}
    "#,
            id, id, id
        )
}

#[allow(dead_code)]
fn tabs_head() -> String {
    format!(
            r#"
        <ul class="nav nav-tabs">
"#
        )
}

#[allow(dead_code)]
fn tab_item(h_text: &str, link_type: &str, id: &str, texts: &[&str], ind: usize) -> String {
    format!(
                r#"{}
            <li class="nav-item" role="presentation">
            <a class="nav-link {}" data-bs-toggle="tab" data-bs-target="{}{}" id="t_{}">{}</a>
        </li>
    "#,
                h_text, link_type, '#', id, id, texts[ind]
            )
}

#[allow(dead_code)]
fn tabs_tail(h_text: &str) -> String {
    format!(
            r#"{}
        </ul>
        "#,
            h_text
        )
}

#[allow(dead_code)]
fn tab_pane(pane_type: &str, id: &str) -> String {
    format!(
                r#"
            <div class="tab-pane {}" id="{}">
            "#,
                pane_type, id
            )
}

#[allow(dead_code)]
fn modal_html(id1: &str, id2: &str, title: &str, text: &str, bt1_text: &str, bt2_text: &str) -> String {
    format!(
            r#"
            <div class="modal" tabindex="-1" id="{}{}">
            <div class="modal-dialog">
              <div class="modal-content">
                <div class="modal-header">
                  <h5 class="modal-title">{}</h5>
                </div>
                <div class="modal-body">
                  <p>{}</p>
                </div>
                <div class="modal-footer">
                  <button type="button" class="btn btn-primary" data-bs-dismiss="modal" onclick="{}_func()">{}</button>
                  <button type="button" class="btn btn-secondary" data-bs-dismiss="modal" onclick="{}_func()">{}</button>
                </div>
              </div>
            </div>
            </div>
            "#,
            id1, id2, title, text, id1, bt1_text, id2, bt2_text
        )
}

#[allow(dead_code)]
fn modal_js(id1: &str, id2: &str) -> String {
    format!(
            r#"
        function {}_func() {{
            conn_ws.send("/{}");
        }}

        function {}_func() {{
            conn_ws.send("/{}");
        }}

        "#,
            id1, id1, id2, id2
        )
}

#[allow(dead_code)]
fn ta_html(id: &str, rows: i32) -> String {
    format!(
            r#"
        <div class="form-group mx-2" style="min-width: 90%">
        <p><textarea class="form-control" id={} rows="{}"></textarea></p>
        </div>
"#,
            id, rows
        )
}

#[allow(dead_code)]
fn ta_js(id: &str, addr: &str) -> String {
    format!(
            r#"
        var text = document.getElementById("{}");
        var addr1 = "ws://" + "{}";
        conn_{} = new WebSocket(addr1);
        conn_{}.onmessage = function (evt) {{
            var edata = evt.data;
            var messages = edata.split('\n');
            for (var i = 0; i < messages.length; i++) {{
                if (messages[i] != "") {{
                    var str = messages[i];
                    str = text.value + str;
                    diff = str.length - 4096;
                    if (diff > 0) {{
                        text.value = str.slice(diff) + '\n';
                    }} else {{
                        text.value = str + '\n';
                    }}
                }}
            }}
            if ((messages.length == 1) && (messages[0] == '')){{
                text.value = "";
            }}
            text.scrollTop = text.scrollHeight;
        }};    
    "#,
            id, addr, id, id
        )
}

#[allow(dead_code)]
fn container_html(id: &str) -> String {
    format!(
            r#"
            <div class="container" id="{}">
    "#,
            id
        )
}

#[allow(dead_code)]
fn block_end() -> String {
    format!(
            r#"
            </div>
    "#
        )
}

#[allow(dead_code)]
fn row_html(id: &str) -> String {
    format!(
            r#"
            <div class="row" id="{}">
    "#,
            id
        )
}

#[allow(dead_code)]
fn col_html(id: &str) -> String {
    format!(
            r#"
            <div class="col align-self-center" id="{}">
    "#,
            id
        )
}

#[allow(dead_code)]
fn colspan_html(span: i32, id: &str) -> String {
    format!(
                r#"
                <div class="col-{} align-self-center" id="{}">
        "#,
                span, id
            )
}

#[allow(dead_code)]
fn colspan_end() -> String {
    format!(
                r#"
                </div>
        "#
            )
}

#[allow(dead_code)]
fn image_html(id: &str, file_name: &str, width: i32, height: i32) -> String {
    format!(
            r#"
            <img id="{}" src="static/{}" alt="missing img" width="{}" height="{}">
    "#,
            id, file_name, width, height
        )
}

#[allow(dead_code)]
fn card_html(header: &str, id: &str, title: &str) -> String {
    format!(
            r#"
            <div class="card">
            <h5 class="card-header">{}</h5>
            <div class="card-body" id="{}">
            <h5 class="card-title">{}</h5>
    "#,
            header, id, title
        )
}

#[allow(dead_code)]
fn card_end() -> String {
    format!(
            r#"
            </div>
            </div>
    "#
        )
}

#[allow(dead_code)]
fn radio_item(h_start: &str, ind: usize, single_id: &str, id: &str, checked: &str, text: &[&str]) -> String {
    format!(
                r#"
                {}
                <div class="form-check">
                <input class="form-check-input" type="radio" value="{}" name="{}" id="{}" {} onclick="{}_func(event)">
                <label class="form-check-label" for="{}">
                {}
                </label>
                  </div>
            "#,
                h_start, ind, single_id, id, checked, single_id, id, text[ind]
            )
}

#[allow(dead_code)]
fn radio_js(single_id: &str) -> String {
    format!(
            r#"
        function {}_func(e) {{
            var val = e.target.value;
            conn_ws.send("/{}@@" + val);
        }}

        "#,
            single_id, single_id
        )
}

#[allow(dead_code)]
fn slider_html(id: &str, min: &str, max: &str, step: &str) -> String {
    format!(
            r#"
            <input id="{}" type="range" class="form-range" min="{}" max="{}" step="{}" onchange="{}_func()">
    "#,
            id, min, max, step, id
        )
}

#[allow(dead_code)]
fn slider_js(id: &str, initial: &str) -> String {
    format!(
            r#"
            function {}_func() {{
                var val = document.getElementById("{}").value; 
                conn_ws.send("/{}@@" + val);
            }}
            document.getElementById("{}").value = "{}"; 
    
        "#,
            id, id, id, id, initial
        )
}

#[allow(dead_code)]
fn badge_html(id: &str, b_type: &str, text: &str) -> String {
    format!(
            r#"
            <span id="{}" class="badge rounded-pill bg-{}">{}</span>
    "#,
            id, b_type, text
        )
}

#[allow(dead_code)]
fn paragraph_html(id: &str) -> String {
    format!(
            r#"
            <p id="{}">
    "#,
            id
        )
}

#[allow(dead_code)]
fn plot_div(id: &str) -> String {
    format!(
            r#"
            <div id="{}"></div>
    "#,
            id
        )
}

#[allow(dead_code)]
fn plot_js(id: &str, x_str: &str, y_str: &str, p_type: &str, mode: &str, title: &str, x_title: &str, y_title: &str, width: i32, height: i32) -> String {
    format!(
            r#"
            PLOT{} = document.getElementById('{}');
            var data{} = [{{
                x: {},
                y: {},
                type: "{}",
                mode: "{}",
            }}];
            var layout{} = {{
                title: "{}",
                xaxis: {{title: "{}"}},
                yaxis: {{title: "{}"}},
                width: {},
                height: {}
              }};
        
            Plotly.newPlot( PLOT{}, data{}, layout{});            
        "#,
        id, id, id, x_str, y_str, p_type, mode, id, title, x_title, y_title, width, height, id, id, id
        )
}

#[allow(dead_code)]
fn trace_y(y_str: &str, p_type: &str, mode: &str, trace_names: &[&str], line: usize) -> String {
    format!(
                r#"
                {{
                    y: {}, 
                    type: "{}",
                    mode: "{}",
                    name: "{}",
                }},
        "#,
            y_str, p_type, mode, trace_names[line]
            )
}

#[allow(dead_code)]
fn multi_js(id: &str, data: &str, title: &str, y_title: &str, width: i32, height: i32) -> String {
    format!(
            r#"
            PLOT{} = document.getElementById('{}');
            var data{} = 
                {}
            ;
        
            var layout{} = {{
                title: "{}",
                yaxis: {{title: "{}"}},
                width: {},
                height: {}
              }};
        
            Plotly.newPlot( PLOT{}, data{}, layout{});
            "#,
            id, id, id, data, id, title, y_title, width, height, id, id, id
        )
}

#[allow(dead_code)]
fn trace_xy(x_str: &str, y_str: &str, p_type: &str, mode: &str, trace_names: &[&str], line: usize) -> String {
    format!(
                r#"
                {{
                    x: {}, 
                    y: {}, 
                    type: "{}",
                    mode: "{}",
                    name: "{}",
                }},
        "#,
            x_str, y_str, p_type, mode, trace_names[line]
            )
}

#[allow(dead_code)]
fn multi_xy_js(id: &str, data: &str, title: &str, x_title: &str, y_title: &str, width: i32, height: i32) -> String {
    format!(
            r#"
            PLOT{} = document.getElementById('{}');
            var data{} = 
                {}
            ;
        
            var layout{} = {{
                title: "{}",
                xaxis: {{title: "{}"}},
                yaxis: {{title: "{}"}},
                width: {},
                height: {}
              }};
        
            Plotly.newPlot( PLOT{}, data{}, layout{});
            "#,
            id, id, id, data, id, title, x_title, y_title, width, height, id, id, id
        )
}


fn dropdown_expected(b_type: &str, id: &str, text: &str, list: &[&str]) -> String {
    let mut h_text = dd_head(b_type, id, text);
    for elem in list {
        h_text = dd_item(&h_text, elem);
    }
    dd_tail(&h_text)
}

#[test]
fn element_default_is_an_empty_body() {
    let e = Elem::default();
    assert_eq!(e.kind(), ElType::BodyT);
    assert_eq!(e.html(), "");
    assert_eq!(e.js(), "");
    assert_eq!(e.h_end(), "");
    assert_eq!(e.id_str(), "");
    assert!(e.sub_elems.is_empty());
    assert!(e.tx_modal.is_none());
    assert!(e.rx_modal.is_none());
}

#[test]
fn eltype_default_is_body() {
    assert_eq!(ElType::default(), ElType::BodyT);
}

#[test]
fn gui_default_configuration() {
    let gc = GuiCfg::default();
    assert_eq!(gc.fh_name(), "static/index.html");
    assert_eq!(gc.ws_url(), "127.0.0.1:9000");
    assert_eq!(gc.serve_url(), "");
    assert!(!gc.browser_start);
    assert!(!gc.plot_included);
    assert!(!gc.exit_on_window_close);
}

#[test]
fn ids_count_up_from_one() {
    let mut gc = GuiCfg::default();
    let a = gc.label_new("a");
    let b = gc.button_new("primary", "b");
    let c = gc.paragraph_new();
    assert_eq!(a.id_str(), "ID1");
    assert_eq!(b.id_str(), "ID2");
    assert_eq!(c.id_str(), "ID3");
}

#[test]
fn init_builds_head_and_websocket_client() {
    let mut gc = GuiCfg::default();
    gc.set_ws_url("127.0.0.1:4242");
    let (cbs, body) = gc.init::<()>("Mini");
    assert_eq!(cbs.len(), 0);
    assert_eq!(body.kind(), ElType::BodyT);
    assert_eq!(body.id_str(), "body");
    assert_eq!(body.html(), page_head("Mini"));
    assert_eq!(body.h_end(), "\n            ");
    assert_eq!(body.js(), ws_js("127.0.0.1:4242"));
}

#[test]
fn init_with_plots_loads_plotly() {
    let mut gc = GuiCfg::default();
    gc.plot_included = true;
    let (_cbs, body) = gc.init::<()>("Charts");
    assert_eq!(
        body.h_end(),
        "\n            <script type=\"text/javascript\" src=\"/static/plotly/plotly-2.30.0.min.js\"></script> "
    );
}

#[test]
fn button_markup() {
    let mut gc = GuiCfg::default();
    let b = gc.button_new("primary", "Count");
    assert_eq!(b.kind(), ElType::ButtonT);
    assert_eq!(b.html(), button_html("primary", "ID1", "Count"));
    assert_eq!(b.js(), button_js("ID1"));
    assert_eq!(b.h_end(), "");
}

#[test]
fn icon_button_markup() {
    let mut gc = GuiCfg::default();
    let b = gc.button_withicon_new("secondary", "brush", "Start");
    assert_eq!(b.kind(), ElType::ButtonT);
    assert_eq!(b.html(), icon_html("secondary", "ID1", "brush", "Start"));
    assert_eq!(b.js(), icon_js("ID1"));
}

#[test]
fn label_markup() {
    let mut gc = GuiCfg::default();
    let l = gc.label_new("0");
    assert_eq!(l.kind(), ElType::LabelT);
    assert_eq!(l.html(), label_html("ID1", "0"));
    assert_eq!(l.js(), "");
}

#[test]
fn dropdown_markup() {
    let mut gc = GuiCfg::default();
    let list = vec!["arial", "verdana", "monospace"];
    let d = gc.dropdown_new("secondary", "Font Family", list.clone());
    assert_eq!(d.kind(), ElType::DDownT);
    assert_eq!(d.html(), dropdown_expected("secondary", "ID1", "Font Family", &list));
    assert_eq!(d.js(), dd_js("ID1"));
}

#[test]
fn dropdown_without_options() {
    let mut gc = GuiCfg::default();
    let d = gc.dropdown_new("light", "Empty", vec![]);
    assert_eq!(d.html(), dropdown_expected("light", "ID1", "Empty", &[]));
}

#[test]
fn input_text_markup() {
    let mut gc = GuiCfg::default();
    let i = gc.inputtext_new("text");
    assert_eq!(i.kind(), ElType::ITextT);
    assert_eq!(i.html(), input_html("ID1", "text"));
    assert_eq!(i.js(), input_js("ID1"));
}

#[test]
fn file_input_markup_is_handled_as_text_input() {
    let mut gc = GuiCfg::default();
    let f = gc.file_input_new("Open");
    assert_eq!(f.kind(), ElType::ITextT);
    assert_eq!(f.html(), file_html("ID1", "Open"));
    assert_eq!(f.js(), file_js("ID1"));
}

#[test]
fn tabs_markup_and_panes() {
    let mut gc = GuiCfg::default();
    let texts = vec!["tab1", "tab2", "tab3"];
    let t = gc.tabs_new(texts.clone());
    let ids = ["ID1", "ID2", "ID3"];
    let mut h_text = tabs_head();
    for (ind, id) in ids.iter().enumerate() {
        let link_type = if ind == 0 { "active" } else { "" };
        h_text = tab_item(&h_text, link_type, id, &texts, ind);
    }
    let h_text = tabs_tail(&h_text);
    assert_eq!(t.kind(), ElType::TabsT);
    assert_eq!(t.id_str(), "tabs");
    assert_eq!(t.html(), h_text);
    assert_eq!(t.sub_elems.len(), 3);
    for (ind, id) in ids.iter().enumerate() {
        let pane_type = if ind == 0 { "show active" } else { "fade" };
        let p = &t.sub_elems[ind];
        assert_eq!(p.kind(), ElType::TPaneT);
        assert_eq!(p.id_str(), *id);
        assert_eq!(p.html(), tab_pane(pane_type, id));
        assert_eq!(p.h_end(), "</div>");
    }
    let next = gc.label_new("x");
    assert_eq!(next.id_str(), "ID4");
}

#[test]
fn tabs_added_to_body() {
    let mut gc = GuiCfg::default();
    let t = gc.tabs_new(vec!["a", "b"]);
    let mut body = Elem::default();
    body.add(&t);
    let expected = format!(
        "{}{}{}{}{}{}{}{}",
        t.html(),
        t.h_end(),
        "<div class=\"tab-content\">",
        t.sub_elems[0].html(),
        "</div>",
        t.sub_elems[1].html(),
        "</div>",
        "</div>"
    );
    assert_eq!(body.html(), expected);
}

#[test]
fn modal_markup_and_buttons() {
    let mut gc = GuiCfg::default();
    let m = gc.modal_new("TEXT INPUT", "Are you sure", "yes", "no");
    assert_eq!(m.kind(), ElType::ModalT);
    assert_eq!(m.id_str(), "ID1ID2");
    assert_eq!(m.html(), modal_html("ID1", "ID2", "TEXT INPUT", "Are you sure", "yes", "no"));
    assert_eq!(m.js(), modal_js("ID1", "ID2"));
    assert_eq!(m.sub_elems.len(), 2);
    assert_eq!(m.sub_elems[0].id_str(), "ID1");
    assert_eq!(m.sub_elems[1].id_str(), "ID2");
    assert_eq!(m.sub_elems[0].kind(), ElType::ButtonT);
    assert_eq!(m.sub_elems[1].html(), "");
    assert!(m.tx_modal.is_some());
    assert!(m.rx_modal.is_some());
}

#[test]
fn modal_answer_goes_through_its_channel() {
    let mut gc = GuiCfg::default();
    let m = gc.modal_new("t", "q", "yes", "no");
    let m2 = m.clone();
    m2.modal_select(true);
    assert!(m.modal_selected());
    m.modal_select(false);
    assert!(!m2.modal_selected());
}

#[test]
fn modal_answer_of_each_delivery() {
    assert!(rwui::elem::modal_answer(Some(true)));
    assert!(!rwui::elem::modal_answer(Some(false)));
    assert!(!rwui::elem::modal_answer(None));
}

#[test]
fn modal_selected_is_false_for_other_elements() {
    let mut gc = GuiCfg::default();
    let l = gc.label_new("x");
    l.modal_select(true);
    assert!(!l.modal_selected());
}

#[test]
fn textarea_markup_and_writes() {
    let mut gc = GuiCfg::default();
    let (tx, rx) = crossbeam_channel::unbounded::<String>();
    let ta = gc.textarea_new(12, "127.0.0.1:5555", tx);
    assert_eq!(ta.kind(), ElType::TextAreaT);
    assert_eq!(ta.html(), ta_html("ID1", 12));
    assert_eq!(ta.js(), ta_js("ID1", "127.0.0.1:5555"));
    ta.write_textarea("From Input field: x\n");
    assert_eq!(rx.recv().unwrap(), "From Input field: x\n");
}

#[test]
fn write_textarea_ignores_other_elements() {
    let mut gc = GuiCfg::default();
    let rx = gc.ws_receiver();
    let l = gc.label_new("x");
    l.write_textarea("nothing");
    assert!(rx.try_recv().is_err());
}

#[test]
fn layout_blocks_markup() {
    let mut gc = GuiCfg::default();
    let ct = gc.container_new();
    let r = gc.row_new();
    let c = gc.col_new();
    let cs = gc.colspan_new(6);
    assert_eq!(ct.kind(), ElType::ContainerT);
    assert_eq!(ct.html(), container_html("ID1"));
    assert_eq!(ct.h_end(), block_end());
    assert_eq!(r.kind(), ElType::RowT);
    assert_eq!(r.html(), row_html("ID2"));
    assert_eq!(r.h_end(), block_end());
    assert_eq!(c.kind(), ElType::ColT);
    assert_eq!(c.html(), col_html("ID3"));
    assert_eq!(c.h_end(), block_end());
    assert_eq!(cs.kind(), ElType::ColT);
    assert_eq!(cs.html(), colspan_html(6, "ID4"));
    assert_eq!(cs.h_end(), colspan_end());
}

#[test]
fn image_card_badge_paragraph_markup() {
    let mut gc = GuiCfg::default();
    let i = gc.image_new("logo.png", 64, -1);
    let c = gc.card_new("Kitchen Sink", "Elements");
    let b = gc.pillbadge_new("info", "new");
    let p = gc.paragraph_new();
    assert_eq!(i.kind(), ElType::ImageT);
    assert_eq!(i.html(), image_html("ID1", "logo.png", 64, -1));
    assert_eq!(c.kind(), ElType::CardT);
    assert_eq!(c.html(), card_html("Kitchen Sink", "ID2", "Elements"));
    assert_eq!(c.h_end(), card_end());
    assert_eq!(b.kind(), ElType::PBadgeT);
    assert_eq!(b.html(), badge_html("ID3", "info", "new"));
    assert_eq!(p.kind(), ElType::ParagraphT);
    assert_eq!(p.html(), paragraph_html("ID4"));
    assert_eq!(p.h_end(), "</p>");
}

#[test]
fn radio_markup() {
    let mut gc = GuiCfg::default();
    let text = vec!["one", "two", "three"];
    let r = gc.radio_new(&text, 1);
    let ids = ["ID1", "ID2", "ID3"];
    let single_id = "ID1radio";
    let mut h_start = String::new();
    for (ind, id) in ids.iter().enumerate() {
        let checked = if ind == 1 { "checked" } else { "" };
        h_start = radio_item(&h_start, ind, single_id, id, checked, &text);
    }
    assert_eq!(r.kind(), ElType::RadioT);
    assert_eq!(r.id_str(), single_id);
    assert_eq!(r.html(), h_start);
    assert_eq!(r.js(), radio_js(single_id));
}

#[test]
fn radio_with_negative_checked_index_checks_none() {
    let mut gc = GuiCfg::default();
    let text = vec!["a", "b"];
    let r = gc.radio_new(&text, -1);
    let mut h_start = String::new();
    for (ind, id) in ["ID1", "ID2"].iter().enumerate() {
        h_start = radio_item(&h_start, ind, "ID1radio", id, "", &text);
    }
    assert_eq!(r.html(), h_start);
}

#[test]
fn rangeslider_markup() {
    let mut gc = GuiCfg::default();
    let (initial, min, max, step) = (5.0f32, 0.0f32, 10.0f32, 0.5f32);
    let s = gc.rangeslider_new(
        &format!("{}", initial),
        &format!("{}", min),
        &format!("{}", max),
        &format!("{}", step),
    );
    assert_eq!(s.kind(), ElType::RSliderT);
    assert_eq!(s.html(), slider_html("ID1", "0", "10", "0.5"));
    assert_eq!(s.js(), slider_js("ID1", "5"));
}

#[test]
fn add_appends_markup_and_script() {
    let mut gc = GuiCfg::default();
    let mut c = gc.col_new();
    let b = gc.button_new("primary", "Go");
    let before = c.html().to_string();
    c.add(&b);
    assert_eq!(c.html(), format!("{}{}{}", before, b.html(), b.h_end()));
    assert_eq!(c.js(), b.js());
    assert_eq!(c.h_end(), block_end());
    assert_eq!(c.id_str(), "ID1");
}

#[test]
fn add_places_sub_elements_between_their_markers() {
    let mut gc = GuiCfg::default();
    let m = gc.modal_new("t", "x", "a", "b");
    let mut body = Elem::default();
    body.add(&m);
    assert_eq!(body.html(), m.html());
    assert_eq!(body.js(), m.js());
}

#[test]
fn grid_of_rows_and_columns() {
    let mut gc = GuiCfg::default();
    let l1 = gc.label_new("a");
    let l2 = gc.label_new("b");
    let l3 = gc.label_new("c");
    let rows = vec![
        ColSpans { elems: vec![l1.clone(), l2.clone()], spans: vec![4, 0] },
        ColSpans { elems: vec![l3.clone()], spans: vec![12] },
    ];
    let g = gc.grid_new(rows);
    // the container takes ID4, then row ID5 with columns ID6 and ID7, then row ID8 with column ID9
    let mut expected = container_html("ID4");
    expected.push_str(&row_html("ID5"));
    expected.push_str(&colspan_html(4, "ID6"));
    expected.push_str(l1.html());
    expected.push_str(&colspan_end());
    expected.push_str(&col_html("ID7"));
    expected.push_str(l2.html());
    expected.push_str(&block_end());
    expected.push_str(&block_end());
    expected.push_str(&row_html("ID8"));
    expected.push_str(&colspan_html(12, "ID9"));
    expected.push_str(l3.html());
    expected.push_str(&colspan_end());
    expected.push_str(&block_end());
    assert_eq!(g.kind(), ElType::ContainerT);
    assert_eq!(g.html(), expected);
    assert_eq!(g.h_end(), block_end());
    assert_eq!(gc.label_new("d").id_str(), "ID10");
}

#[test]
fn styling_appends_script() {
    let mut gc = GuiCfg::default();
    let mut ta = gc.label_new("x");
    ta.set_background_color("#ffe6e6");
    ta.set_color("blue");
    ta.set_font_size("small");
    ta.set_font_family("monospace");
    ta.set_background_image("abstract.jpg", 95);
    let expected = format!(
        "{}{}{}{}{}",
        bg_color_elem("ID1", "#ffe6e6"),
        color_js("ID1", "blue"),
        font_size_js("ID1", "small"),
        font_family_js("ID1", "monospace"),
        bg_image_elem("ID1", "abstract.jpg", 95)
    );
    assert_eq!(ta.js(), expected);
    assert!(ta.js().trim_end().ends_with("item.style.opacity = \"95%\";"));
}

#[test]
fn body_styling_targets_the_document() {
    let mut gc = GuiCfg::default();
    let (_cbs, mut body) = gc.init::<()>("T");
    let js = body.js().to_string();
    body.set_background_image("abstract.jpg", 95);
    body.set_background_color("red");
    assert_eq!(
        body.js(),
        format!("{}{}{}", js, bg_image_body("abstract.jpg", 95), bg_color_body("red"))
    );
}

#[test]
fn clone_keeps_everything() {
    let mut gc = GuiCfg::default();
    let t = gc.tabs_new(vec!["x", "y"]);
    let c = t.clone();
    assert_eq!(c.html(), t.html());
    assert_eq!(c.js(), t.js());
    assert_eq!(c.id_str(), t.id_str());
    assert_eq!(c.kind(), t.kind());
    assert_eq!(c.sub_elems.len(), 2);
    assert_eq!(c.sub_elems[1].html(), t.sub_elems[1].html());
}

fn fmt(v: &[f64]) -> Vec<String> {
    v.iter().map(|x| format!("{:7.2}", x)).collect()
}

#[test]
fn line_and_scatter_charts() {
    let mut gc = GuiCfg::default();
    let x_vec = vec![1.0, 2.0, 3.0];
    let y_vec = vec![10.5, -2.25, 3.0];
    let p = gc.plot_line_new(&fmt(&x_vec), &fmt(&y_vec), "T", "X", "Y", 400, 300);
    let s = gc.plot_scatter_new(&fmt(&x_vec), &fmt(&y_vec), "T", "X", "Y", 400, 300);
    let mut x_str = "[".to_string();
    let mut y_str = "[".to_string();
    for (ind, x_elem) in x_vec.iter().enumerate() {
        x_str = format!("{}{:7.2}, ", x_str, x_elem);
        y_str = format!("{}{:7.2}, ", y_str, y_vec[ind]);
    }
    x_str = format!("{}]", x_str);
    y_str = format!("{}]", y_str);
    assert_eq!(p.kind(), ElType::ParagraphT);
    assert_eq!(p.html(), plot_div("ID1"));
    assert_eq!(p.js(), plot_js("ID1", &x_str, &y_str, "", "lines", "T", "X", "Y", 400, 300));
    assert_eq!(s.html(), plot_div("ID2"));
    assert_eq!(s.js(), plot_js("ID2", &x_str, &y_str, "scatter", "markers", "T", "X", "Y", 400, 300));
}

#[test]
fn bar_charts() {
    let mut gc = GuiCfg::default();
    let labels = vec!["a".to_string(), "b".to_string()];
    let vals = vec![1.5, 2.0, 9.0];
    let v = gc.plot_vbar_new(&labels, &fmt(&vals), "T", "X", "Y", 10, 20);
    let h = gc.plot_hbar_new(&fmt(&vals[..2]), &labels, "T", "X", "Y", 10, 20);
    let mut x_str = "[".to_string();
    let mut y_str = "[".to_string();
    for (ind, x_elem) in labels.iter().enumerate() {
        x_str = format!(r#"{}"{}", "#, x_str, x_elem);
        y_str = format!("{}{:7.2}, ", y_str, vals[ind]);
    }
    x_str = format!("{}]", x_str);
    y_str = format!("{}]", y_str);
    assert_eq!(v.js(), plot_js("ID1", &x_str, &y_str, "bar", "s", "T", "X", "Y", 10, 20));
    let mut x_str = "[".to_string();
    let mut y_str = "[".to_string();
    for (ind, x_elem) in vals[..2].iter().enumerate() {
        x_str = format!("{}{:7.2}, ", x_str, x_elem);
        y_str = format!(r#"{}"{}", "#, y_str, labels[ind]);
    }
    x_str = format!("{}]", x_str);
    y_str = format!("{}]", y_str);
    assert_eq!(h.js(), plot_js("ID2", &x_str, &y_str, "bar", "s", "T", "X", "Y", 10, 20));
}

#[test]
fn multi_line_and_box_charts() {
    let mut gc = GuiCfg::default();
    let x_vec = vec![0.0, 1.0, 2.0];
    let y_vec = vec![vec![1.0, 2.0, 3.0], vec![4.0, 5.0, 6.0]];
    let trace_names = vec!["first", "second"];
    let ys: Vec<Vec<String>> = y_vec.iter().map(|l| fmt(l)).collect();
    let m = gc.plot_line_multiy_new(&fmt(&x_vec), &ys, "T", &trace_names, "X", "Y", 50, 60);
    let b = gc.plot_boxplot_new(&ys, "B", &trace_names, "Y", 50, 60);

    let (p_type, mode) = ("", "lines");
    let mut data = "[".to_string();
    for line in 0..y_vec.len() {
        let mut x_str = "[".to_string();
        let mut y_str = "[".to_string();
        for ind in 0..x_vec.len() {
            x_str = format!("{}{:7.2}, ", x_str, x_vec[ind]);
            y_str = format!("{}{:7.2}, ", y_str, y_vec[line][ind]);
        }
        x_str = format!("{}]", x_str);
        y_str = format!("{}]", y_str);
        data = format!("{}{}", data, trace_xy(&x_str, &y_str, p_type, mode, &trace_names, line));
    }
    data = format!("{}]", data);
    assert_eq!(m.js(), multi_xy_js("ID1", &data, "T", "X", "Y", 50, 60));

    let (p_type, mode) = ("box", "");
    let mut data = "[".to_string();
    for line in 0..y_vec.len() {
        let mut y_str = "[".to_string();
        for ind in 0..y_vec[line].len() {
            y_str = format!("{}{:7.2}, ", y_str, y_vec[line][ind]);
        }
        y_str = format!("{}]", y_str);
        data = format!("{}{}", data, trace_y(&y_str, p_type, mode, &trace_names, line));
    }
    data = format!("{}]", data);
    assert_eq!(b.js(), multi_js("ID2", &data, "B", "Y", 50, 60));
    assert_eq!(b.html(), plot_div("ID2"));
}

#[test]
fn multi_charts_keep_every_point() {
    let mut gc = GuiCfg::default();
    let x_vec = vec![1.0, 2.0, 3.0, 4.0, 5.0];
    let y_vec = vec![
        vec![1.0, 2.0, 3.0, 4.0, 5.0],
        vec![2.0, 3.0, 4.0, 5.0, 6.0],
        vec![3.0, 4.0, 5.0, 6.0, 7.0],
    ];
    let trace_names = vec!["a", "b", "c"];
    let ys: Vec<Vec<String>> = y_vec.iter().map(|l| fmt(l)).collect();
    let m = gc.plot_line_multiy_new(&fmt(&x_vec), &ys, "T", &trace_names, "X", "Y", 50, 60);
    let b = gc.plot_boxplot_new(&ys, "B", &trace_names, "Y", 50, 60);
    let xs = format!("[{}]", fmt(&x_vec).iter().map(|v| format!("{}, ", v)).collect::<String>());
    let mut data = "[".to_string();
    let mut box_data = "[".to_string();
    for line in 0..3 {
        let y_str = format!("[{}]", ys[line].iter().map(|v| format!("{}, ", v)).collect::<String>());
        data = format!("{}{}", data, trace_xy(&xs, &y_str, "", "lines", &trace_names, line));
        box_data = format!("{}{}", box_data, trace_y(&y_str, "box", "", &trace_names, line));
    }
    data = format!("{}]", data);
    box_data = format!("{}]", box_data);
    assert_eq!(m.js(), multi_xy_js("ID1", &data, "T", "X", "Y", 50, 60));
    assert_eq!(b.js(), multi_js("ID2", &box_data, "B", "Y", 50, 60));
    assert!(m.js().contains("   7.00, "));
    assert!(b.js().contains("   7.00, "));
}

/// The tags left open after `s`, or `None` on a closing tag that does not
/// match (the same reading as the library's nesting scan).
fn open_tags(s: &str) -> Option<Vec<String>> {
    let void = ["img", "input", "br", "hr", "meta", "link"];
    let mut open: Vec<String> = Vec::new();
    let c: Vec<char> = s.chars().collect();
    let mut i = 0;
    while i < c.len() {
        if c[i] != '<' {
            i += 1;
            continue;
        }
        i += 1;
        if i < c.len() && c[i] == '/' {
            let mut name = String::new();
            i += 1;
            while i < c.len() && c[i] != '>' && !c[i].is_whitespace() {
                name.push(c[i]);
                i += 1;
            }
            while i < c.len() && c[i] != '>' {
                i += 1;
            }
            if open.last() != Some(&name) {
                return None;
            }
            open.pop();
        } else if i < c.len() && c[i] == '!' {
            while i < c.len() && c[i] != '>' {
                i += 1;
            }
        } else {
            let mut name = String::new();
            while i < c.len() && c[i] != '>' && c[i] != '/' && !c[i].is_whitespace() {
                name.push(c[i]);
                i += 1;
            }
            let (mut quoted, mut slash) = (false, false);
            while i < c.len() && (quoted || c[i] != '>') {
                if c[i] == '"' {
                    quoted = !quoted;
                }
                slash = !quoted && c[i] == '/';
                i += 1;
            }
            if !name.is_empty() && !slash && !void.contains(&name.as_str()) {
                open.push(name);
            }
        }
        i += 1;
    }
    Some(open)
}

#[test]
fn nested_blocks_stay_well_nested() {
    let mut gc = GuiCfg::default();
    let mut ct = gc.container_new();
    let mut r = gc.row_new();
    let mut c1 = gc.col_new();
    let mut card = gc.card_new("h", "t");
    let b = gc.button_new("primary", "go");
    let l = gc.label_new("x");
    card.add(&l);
    c1.add(&b);
    c1.add(&card);
    r.add(&c1);
    let before = open_tags(ct.html());
    ct.add(&r);
    assert_eq!(open_tags(ct.html()), before);
    let whole = format!("{}{}", ct.html(), ct.h_end());
    assert_eq!(open_tags(&whole), Some(vec![]));
}
