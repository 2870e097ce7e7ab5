//! The fixed pieces of markup and script that the page builders put
//! around the caller's values.
use vstd::prelude::*;

verus! {

// BG_IMAGE_BODY
pub const BG_IMAGE_BODY_0: &'static str = r##"
        document.body.style.backgroundImage = "url('static/"##;
pub const BG_IMAGE_BODY_1: &'static str = r##"')";	
		document.body.style.backgroundSize = "cover";	
		document.body.style.opacity = ""##;
pub const BG_IMAGE_BODY_3: &'static str = r##"";	
        "##;
// BG_IMAGE_ELEM
pub const BG_IMAGE_ELEM_0: &'static str = r##"
		var item = document.getElementById(""##;
pub const BG_IMAGE_ELEM_1: &'static str = r##"");
		item.style.backgroundImage = "url('static/"##;
pub const BG_IMAGE_ELEM_2: &'static str = r##"')";		
		item.style.backgroundSize = "cover";	
		item.style.opacity = ""##;
pub const BG_IMAGE_ELEM_4: &'static str = r##"";		
        "##;
// BG_COLOR_BODY
pub const BG_COLOR_BODY_0: &'static str = r##"
            document.body.style.backgroundColor = ""##;
pub const BG_COLOR_BODY_1: &'static str = r##"";		
            "##;
// BG_COLOR_ELEM
pub const BG_COLOR_ELEM_0: &'static str = r##"
            var item = document.getElementById(""##;
pub const BG_COLOR_ELEM_1: &'static str = r##"");
            item.style.backgroundColor = ""##;
pub const BG_COLOR_ELEM_2: &'static str = r##"";		
            "##;
// COLOR_JS
pub const COLOR_JS_0: &'static str = r##"
        var item = document.getElementById(""##;
pub const COLOR_JS_1: &'static str = r##"");
        item.style.color = ""##;
pub const COLOR_JS_2: &'static str = r##"";		
        "##;
// FONT_SIZE_JS
pub const FONT_SIZE_JS_0: &'static str = r##"
        var item = document.getElementById(""##;
pub const FONT_SIZE_JS_1: &'static str = r##"");
        item.style.fontSize = ""##;
pub const FONT_SIZE_JS_2: &'static str = r##"";		
            "##;
// FONT_FAMILY_JS
pub const FONT_FAMILY_JS_0: &'static str = r##"
        var item = document.getElementById(""##;
pub const FONT_FAMILY_JS_1: &'static str = r##"");
        item.style.fontFamily = ""##;
pub const FONT_FAMILY_JS_2: &'static str = r##"";		
            "##;
// PAGE_HEAD
pub const PAGE_HEAD_0: &'static str = r##"
            <!DOCTYPE html>
            <html lang="en">
        
            <head>
            <title>"##;
pub const PAGE_HEAD_1: &'static str = r##"</title>
            <meta name="viewport" content="width=device-width, initial-scale=1">
        
            <!-- -->
            <link href="static/bootstrap/css/bootstrap.css" rel="stylesheet" media="screen">
            <link href="static/web2.css" rel="stylesheet">            
            <!-- 
            <link href="https://cdn.jsdelivr.net/npm/bootstrap@5.3.2/dist/css/bootstrap.min.css" rel="stylesheet" integrity="sha384-T3c6CoIi6uLrA9TneNEoa7RxnatzjcDSCmG1MXxSR1GAsXEV/Dwwykc2MPK8M2HN" crossorigin="anonymous"> 
            -->
        
            </head>
        
            <body>
            <!-- -->
            <script type="text/javascript" src="static/bootstrap/js/bootstrap.bundle.js"></script>            
            <!--
            <script src="https://cdn.jsdelivr.net/npm/bootstrap@5.3.3/dist/js/bootstrap.bundle.min.js" integrity="sha384-YvpcrYf0tY3lHB60NNkmXc5s9fDVZLESaAA55NDzOxhy9GkcIdslK1eN7N6jIeHz" crossorigin="anonymous"></script> 
            -->
            "##;
// PLOTLY_SCRIPT
pub const PLOTLY_SCRIPT_0: &'static str = r##"<script type="text/javascript" src="/static/plotly/plotly-2.30.0.min.js"></script> "##;
// PAGE_END
pub const PAGE_END_0: &'static str = r##"
            "##;
// WS_CLIENT_JS
pub const WS_CLIENT_JS_0: &'static str = r##"
            var addr1 = "ws://" + ""##;
pub const WS_CLIENT_JS_1: &'static str = r##"";
            conn_ws = new WebSocket(addr1);
            conn_ws.onmessage = function (evt) {
                var messages = evt.data.split('@');
                var type = messages[0];
                var id = messages[1];
                var item = document.getElementById(id);
                if (type === "TEXT") {
                    item.innerHTML = messages[2];
                }
                else if (type === "COLOR") {
                    var color = messages[2];
                    item.style.color = color;
                }
                else if (type === "BCOLOR") {
                    var color = messages[2];
                    item.style.backgroundColor  = color;
                }
                else if (type === "FONTSIZE") {
                    var fsize = messages[2];
                    item.style.fontSize  = fsize;
                }
                else if (type === "FONTFAMILY") {
                    var font = messages[2];
                    item.style.fontFamily  = font;
                }
                else if (type === "MODALSHOW") {
                    var modal = new bootstrap.Modal(item, {
                        keyboard: false
                      }); 
                    modal.show();
                }
                else if (type === "ENABLE") {
                    var enable = messages[2];
                    if (enable === "ENABLE") {
                        item.disabled = false;
                    }
                    else  {
                        item.disabled = true;
                    }
                }
                else if (type === "IMAGE") {
                    src = 'static/' + messages[2]; 
                    item.src = src;
                }
                else if (type === "PREDRAWY") {
                    var len = parseInt(messages[2], 10);
                    var yVec = new Float32Array(len);
                    for (ind = 0; ind < len; ind++) {
                        yVec[ind] = parseFloat(messages[3+ind]);
                    }
                    window["data" + id][0].y = yVec;
                    Plotly.newPlot(window["PLOT"+id], window["data"+id], window["layout"+id]);
                }
                else if (type === "PREDRAWXSY") {
                    var len = parseInt(messages[2], 10);
                    var yVec = new Float32Array(len);
                    var xVec = new Array(len);;
                    for (ind = 0; ind < len; ind++) {
                        yVec[ind] = parseFloat(messages[3+ind]);
                    }
                    for (ind = 0; ind < len; ind++) {
                        xVec[ind] = messages[len+3+ind];
                    }
                    window["data" + id][0].y = yVec;
                    window["data" + id][0].x = xVec;
                    Plotly.newPlot(window["PLOT"+id], window["data"+id], window["layout"+id]);
                }
                else if (type === "CLICK") {
                    var fun = window[id+"_func"];
                    fun();
                    //item.click();
                }
            };
            window.onbeforeunload = function(e) {
                conn_ws.send("CLOSE");
            };
        
            "##;
// BUTTON_HTML
pub const BUTTON_HTML_0: &'static str = r##"
            <button type="button" class="btn btn-"##;
pub const BUTTON_HTML_1: &'static str = r##" m-2" id=""##;
pub const BUTTON_HTML_2: &'static str = r##"" onclick=""##;
pub const BUTTON_HTML_3: &'static str = r##"_func()">
            <span id=""##;
pub const BUTTON_HTML_4: &'static str = r##"text">"##;
pub const BUTTON_HTML_5: &'static str = r##"</span></button>
            "##;
// BUTTON_JS
pub const BUTTON_JS_0: &'static str = r##"
        function "##;
pub const BUTTON_JS_1: &'static str = r##"_func() {
            conn_ws.send("/"##;
pub const BUTTON_JS_2: &'static str = r##"");
        }
        "##;
// ICON_BUTTON_HTML
pub const ICON_BUTTON_HTML_0: &'static str = r##"
        <button type="button" class="btn btn-"##;
pub const ICON_BUTTON_HTML_1: &'static str = r##" m-2" id=""##;
pub const ICON_BUTTON_HTML_2: &'static str = r##"" onclick=""##;
pub const ICON_BUTTON_HTML_3: &'static str = r##"_func()">
        <span class="btn-label">
        <img src="static/bootstrap-icons/"##;
pub const ICON_BUTTON_HTML_4: &'static str = r##".svg" alt="" width="16" height="16"></i></span>
        <span id=""##;
pub const ICON_BUTTON_HTML_5: &'static str = r##"text">"##;
pub const ICON_BUTTON_HTML_6: &'static str = r##"</span></button>
            "##;
// ICON_BUTTON_JS
pub const ICON_BUTTON_JS_0: &'static str = r##"
    function "##;
pub const ICON_BUTTON_JS_1: &'static str = r##"_func() {
        conn_ws.send("/"##;
pub const ICON_BUTTON_JS_2: &'static str = r##"");
    }
    "##;
// LABEL_HTML
pub const LABEL_HTML_0: &'static str = r##"
            <label class="m-2" id="##;
pub const LABEL_HTML_1: &'static str = r##">"##;
pub const LABEL_HTML_2: &'static str = r##"</label>
            "##;
// DROPDOWN_HEAD
pub const DROPDOWN_HEAD_0: &'static str = r##"
        <div class="dropdown">
        <button class="btn btn-"##;
pub const DROPDOWN_HEAD_1: &'static str = r##" m-2 dropdown-toggle" role="button" id=""##;
pub const DROPDOWN_HEAD_2: &'static str = r##"" data-bs-toggle="dropdown" aria-expanded="false" >
      "##;
pub const DROPDOWN_HEAD_3: &'static str = r##"
        </button>
        <ul class="dropdown-menu" id=""##;
pub const DROPDOWN_HEAD_4: &'static str = r##"" onclick=""##;
pub const DROPDOWN_HEAD_5: &'static str = r##"_func(event)">
        "##;
// DROPDOWN_ITEM
pub const DROPDOWN_ITEM_1: &'static str = r##"<li><a class="dropdown-item" href=""##;
pub const DROPDOWN_ITEM_2: &'static str = r##"">"##;
pub const DROPDOWN_ITEM_3: &'static str = r##"</a></li>
            "##;
// DROPDOWN_TAIL
pub const DROPDOWN_TAIL_1: &'static str = r##"</ul>
        </div>
        "##;
// DROPDOWN_JS
pub const DROPDOWN_JS_0: &'static str = r##"
        function "##;
pub const DROPDOWN_JS_1: &'static str = r##"_func(e) {
            var val = e.target.innerHTML;
            conn_ws.send("/"##;
pub const DROPDOWN_JS_2: &'static str = r##"@@" + val);
        }
        "##;
// INPUT_HTML
pub const INPUT_HTML_0: &'static str = r##"
        <input type="text" class="m-2" id=""##;
pub const INPUT_HTML_1: &'static str = r##"" name=""##;
pub const INPUT_HTML_2: &'static str = r##"" placeholder=""##;
pub const INPUT_HTML_3: &'static str = r##"" style="text-align: right;" onkeypress=""##;
pub const INPUT_HTML_4: &'static str = r##"_func(event)">
    "##;
// INPUT_JS
pub const INPUT_JS_0: &'static str = r##"
    function "##;
pub const INPUT_JS_1: &'static str = r##"_func(e) {
        if(e.keyCode == 13) {
            var val = document.getElementById(""##;
pub const INPUT_JS_2: &'static str = r##"").value;
            conn_ws.send("/"##;
pub const INPUT_JS_3: &'static str = r##"@@" + val);
        }
    }
    "##;
// FILE_INPUT_HTML
pub const FILE_INPUT_HTML_0: &'static str = r##"
            <div class="input-group m-2">
  	<button class="btn btn-outline-secondary" type="button" id=""##;
pub const FILE_INPUT_HTML_1: &'static str = r##"" onclick=""##;
pub const FILE_INPUT_HTML_2: &'static str = r##"_func()">"##;
pub const FILE_INPUT_HTML_3: &'static str = r##"</button>
  	<input type="file" class="form-control" id=""##;
pub const FILE_INPUT_HTML_4: &'static str = r##"file" aria-describedby=""##;
pub const FILE_INPUT_HTML_5: &'static str = r##"" aria-label="Upload">
    </div>
    "##;
// FILE_INPUT_JS
pub const FILE_INPUT_JS_0: &'static str = r##"
    function "##;
pub const FILE_INPUT_JS_1: &'static str = r##"_func(e) {
        var val = document.getElementById(""##;
pub const FILE_INPUT_JS_2: &'static str = r##"file").value;
        conn_ws.send("/"##;
pub const FILE_INPUT_JS_3: &'static str = r##"@@" + val);
    }
    "##;
// TABS_HEAD
pub const TABS_HEAD_0: &'static str = r##"
        <ul class="nav nav-tabs">
"##;
// TAB_ITEM
pub const TAB_ITEM_1: &'static str = r##"
            <li class="nav-item" role="presentation">
            <a class="nav-link "##;
pub const TAB_ITEM_2: &'static str = r##"" data-bs-toggle="tab" data-bs-target=""##;
pub const TAB_ITEM_4: &'static str = r##"" id="t_"##;
pub const TAB_ITEM_5: &'static str = r##"">"##;
pub const TAB_ITEM_6: &'static str = r##"</a>
        </li>
    "##;
// TABS_TAIL
pub const TABS_TAIL_1: &'static str = r##"
        </ul>
        "##;
// TAB_PANE
pub const TAB_PANE_0: &'static str = r##"
            <div class="tab-pane "##;
pub const TAB_PANE_1: &'static str = r##"" id=""##;
pub const TAB_PANE_2: &'static str = r##"">
            "##;
// MODAL_HTML
pub const MODAL_HTML_0: &'static str = r##"
            <div class="modal" tabindex="-1" id=""##;
pub const MODAL_HTML_2: &'static str = r##"">
            <div class="modal-dialog">
              <div class="modal-content">
                <div class="modal-header">
                  <h5 class="modal-title">"##;
pub const MODAL_HTML_3: &'static str = r##"</h5>
                </div>
                <div class="modal-body">
                  <p>"##;
pub const MODAL_HTML_4: &'static str = r##"</p>
                </div>
                <div class="modal-footer">
                  <button type="button" class="btn btn-primary" data-bs-dismiss="modal" onclick=""##;
pub const MODAL_HTML_5: &'static str = r##"_func()">"##;
pub const MODAL_HTML_6: &'static str = r##"</button>
                  <button type="button" class="btn btn-secondary" data-bs-dismiss="modal" onclick=""##;
pub const MODAL_HTML_7: &'static str = r##"_func()">"##;
pub const MODAL_HTML_8: &'static str = r##"</button>
                </div>
              </div>
            </div>
            </div>
            "##;
// MODAL_JS
pub const MODAL_JS_0: &'static str = r##"
        function "##;
pub const MODAL_JS_1: &'static str = r##"_func() {
            conn_ws.send("/"##;
pub const MODAL_JS_2: &'static str = r##"");
        }

        function "##;
pub const MODAL_JS_3: &'static str = r##"_func() {
            conn_ws.send("/"##;
pub const MODAL_JS_4: &'static str = r##"");
        }

        "##;
// TEXTAREA_HTML
pub const TEXTAREA_HTML_0: &'static str = r##"
        <div class="form-group mx-2" style="min-width: 90%">
        <p><textarea class="form-control" id="##;
pub const TEXTAREA_HTML_1: &'static str = r##" rows=""##;
pub const TEXTAREA_HTML_2: &'static str = r##""></textarea></p>
        </div>
"##;
// TEXTAREA_JS
pub const TEXTAREA_JS_0: &'static str = r##"
        var text = document.getElementById(""##;
pub const TEXTAREA_JS_1: &'static str = r##"");
        var addr1 = "ws://" + ""##;
pub const TEXTAREA_JS_2: &'static str = r##"";
        conn_"##;
pub const TEXTAREA_JS_3: &'static str = r##" = new WebSocket(addr1);
        conn_"##;
pub const TEXTAREA_JS_4: &'static str = r##".onmessage = function (evt) {
            var edata = evt.data;
            var messages = edata.split('\n');
            for (var i = 0; i < messages.length; i++) {
                if (messages[i] != "") {
                    var str = messages[i];
                    str = text.value + str;
                    diff = str.length - 4096;
                    if (diff > 0) {
                        text.value = str.slice(diff) + '\n';
                    } else {
                        text.value = str + '\n';
                    }
                }
            }
            if ((messages.length == 1) && (messages[0] == '')){
                text.value = "";
            }
            text.scrollTop = text.scrollHeight;
        };    
    "##;
// CONTAINER_START
pub const CONTAINER_START_0: &'static str = r##"
            <div class="container" id=""##;
pub const CONTAINER_START_1: &'static str = r##"">
    "##;
// BLOCK_END
pub const BLOCK_END_0: &'static str = r##"
            </div>
    "##;
// ROW_START
pub const ROW_START_0: &'static str = r##"
            <div class="row" id=""##;
pub const ROW_START_1: &'static str = r##"">
    "##;
// COL_START
pub const COL_START_0: &'static str = r##"
            <div class="col align-self-center" id=""##;
pub const COL_START_1: &'static str = r##"">
    "##;
// COLSPAN_START
pub const COLSPAN_START_0: &'static str = r##"
                <div class="col-"##;
pub const COLSPAN_START_1: &'static str = r##" align-self-center" id=""##;
pub const COLSPAN_START_2: &'static str = r##"">
        "##;
// COLSPAN_END
pub const COLSPAN_END_0: &'static str = r##"
                </div>
        "##;
// IMAGE_HTML
pub const IMAGE_HTML_0: &'static str = r##"
            <img id=""##;
pub const IMAGE_HTML_1: &'static str = r##"" src="static/"##;
pub const IMAGE_HTML_2: &'static str = r##"" alt="missing img" width=""##;
pub const IMAGE_HTML_3: &'static str = r##"" height=""##;
pub const IMAGE_HTML_4: &'static str = r##"">
    "##;
// CARD_START
pub const CARD_START_0: &'static str = r##"
            <div class="card">
            <h5 class="card-header">"##;
pub const CARD_START_1: &'static str = r##"</h5>
            <div class="card-body" id=""##;
pub const CARD_START_2: &'static str = r##"">
            <h5 class="card-title">"##;
pub const CARD_START_3: &'static str = r##"</h5>
    "##;
// CARD_END
pub const CARD_END_0: &'static str = r##"
            </div>
            </div>
    "##;
// RADIO_ITEM
pub const RADIO_ITEM_0: &'static str = r##"
                "##;
pub const RADIO_ITEM_1: &'static str = r##"
                <div class="form-check">
                <input class="form-check-input" type="radio" value=""##;
pub const RADIO_ITEM_2: &'static str = r##"" name=""##;
pub const RADIO_ITEM_3: &'static str = r##"" id=""##;
pub const RADIO_ITEM_4: &'static str = r##"" "##;
pub const RADIO_ITEM_5: &'static str = r##" onclick=""##;
pub const RADIO_ITEM_6: &'static str = r##"_func(event)">
                <label class="form-check-label" for=""##;
pub const RADIO_ITEM_7: &'static str = r##"">
                "##;
pub const RADIO_ITEM_8: &'static str = r##"
                </label>
                  </div>
            "##;
// RADIO_JS
pub const RADIO_JS_0: &'static str = r##"
        function "##;
pub const RADIO_JS_1: &'static str = r##"_func(e) {
            var val = e.target.value;
            conn_ws.send("/"##;
pub const RADIO_JS_2: &'static str = r##"@@" + val);
        }

        "##;
// SLIDER_HTML
pub const SLIDER_HTML_0: &'static str = r##"
            <input id=""##;
pub const SLIDER_HTML_1: &'static str = r##"" type="range" class="form-range" min=""##;
pub const SLIDER_HTML_2: &'static str = r##"" max=""##;
pub const SLIDER_HTML_3: &'static str = r##"" step=""##;
pub const SLIDER_HTML_4: &'static str = r##"" onchange=""##;
pub const SLIDER_HTML_5: &'static str = r##"_func()">
    "##;
// SLIDER_JS
pub const SLIDER_JS_0: &'static str = r##"
            function "##;
pub const SLIDER_JS_1: &'static str = r##"_func() {
                var val = document.getElementById(""##;
pub const SLIDER_JS_2: &'static str = r##"").value; 
                conn_ws.send("/"##;
pub const SLIDER_JS_3: &'static str = r##"@@" + val);
            }
            document.getElementById(""##;
pub const SLIDER_JS_4: &'static str = r##"").value = ""##;
pub const SLIDER_JS_5: &'static str = r##""; 
    
        "##;
// BADGE_HTML
pub const BADGE_HTML_0: &'static str = r##"
            <span id=""##;
pub const BADGE_HTML_1: &'static str = r##"" class="badge rounded-pill bg-"##;
pub const BADGE_HTML_2: &'static str = r##"">"##;
pub const BADGE_HTML_3: &'static str = r##"</span>
    "##;
// PARAGRAPH_START
pub const PARAGRAPH_START_0: &'static str = r##"
            <p id=""##;
pub const PARAGRAPH_START_1: &'static str = r##"">
    "##;
// PLOT_DIV
pub const PLOT_DIV_0: &'static str = r##"
            <div id=""##;
pub const PLOT_DIV_1: &'static str = r##""></div>
    "##;
// PLOT_JS
pub const PLOT_JS_0: &'static str = r##"
            PLOT"##;
pub const PLOT_JS_1: &'static str = r##" = document.getElementById('"##;
pub const PLOT_JS_2: &'static str = r##"');
            var data"##;
pub const PLOT_JS_3: &'static str = r##" = [{
                x: "##;
pub const PLOT_JS_4: &'static str = r##",
                y: "##;
pub const PLOT_JS_5: &'static str = r##",
                type: ""##;
pub const PLOT_JS_6: &'static str = r##"",
                mode: ""##;
pub const PLOT_JS_7: &'static str = r##"",
            }];
            var layout"##;
pub const PLOT_JS_8: &'static str = r##" = {
                title: ""##;
pub const PLOT_JS_9: &'static str = r##"",
                xaxis: {title: ""##;
pub const PLOT_JS_10: &'static str = r##""},
                yaxis: {title: ""##;
pub const PLOT_JS_11: &'static str = r##""},
                width: "##;
pub const PLOT_JS_12: &'static str = r##",
                height: "##;
pub const PLOT_JS_13: &'static str = r##"
              };
        
            Plotly.newPlot( PLOT"##;
pub const PLOT_JS_14: &'static str = r##", data"##;
pub const PLOT_JS_15: &'static str = r##", layout"##;
pub const PLOT_JS_16: &'static str = r##");            
        "##;
// TRACE_Y
pub const TRACE_Y_0: &'static str = r##"
                {
                    y: "##;
pub const TRACE_Y_1: &'static str = r##", 
                    type: ""##;
pub const TRACE_Y_2: &'static str = r##"",
                    mode: ""##;
pub const TRACE_Y_3: &'static str = r##"",
                    name: ""##;
pub const TRACE_Y_4: &'static str = r##"",
                },
        "##;
// MULTI_JS
pub const MULTI_JS_0: &'static str = r##"
            PLOT"##;
pub const MULTI_JS_1: &'static str = r##" = document.getElementById('"##;
pub const MULTI_JS_2: &'static str = r##"');
            var data"##;
pub const MULTI_JS_3: &'static str = r##" = 
                "##;
pub const MULTI_JS_4: &'static str = r##"
            ;
        
            var layout"##;
pub const MULTI_JS_5: &'static str = r##" = {
                title: ""##;
pub const MULTI_JS_6: &'static str = r##"",
                yaxis: {title: ""##;
pub const MULTI_JS_7: &'static str = r##""},
                width: "##;
pub const MULTI_JS_8: &'static str = r##",
                height: "##;
pub const MULTI_JS_9: &'static str = r##"
              };
        
            Plotly.newPlot( PLOT"##;
pub const MULTI_JS_10: &'static str = r##", data"##;
pub const MULTI_JS_11: &'static str = r##", layout"##;
pub const MULTI_JS_12: &'static str = r##");
            "##;
// TRACE_XY
pub const TRACE_XY_0: &'static str = r##"
                {
                    x: "##;
pub const TRACE_XY_1: &'static str = r##", 
                    y: "##;
pub const TRACE_XY_2: &'static str = r##", 
                    type: ""##;
pub const TRACE_XY_3: &'static str = r##"",
                    mode: ""##;
pub const TRACE_XY_4: &'static str = r##"",
                    name: ""##;
pub const TRACE_XY_5: &'static str = r##"",
                },
        "##;
// MULTI_XY_JS
pub const MULTI_XY_JS_0: &'static str = r##"
            PLOT"##;
pub const MULTI_XY_JS_1: &'static str = r##" = document.getElementById('"##;
pub const MULTI_XY_JS_2: &'static str = r##"');
            var data"##;
pub const MULTI_XY_JS_3: &'static str = r##" = 
                "##;
pub const MULTI_XY_JS_4: &'static str = r##"
            ;
        
            var layout"##;
pub const MULTI_XY_JS_5: &'static str = r##" = {
                title: ""##;
pub const MULTI_XY_JS_6: &'static str = r##"",
                xaxis: {title: ""##;
pub const MULTI_XY_JS_7: &'static str = r##""},
                yaxis: {title: ""##;
pub const MULTI_XY_JS_8: &'static str = r##""},
                width: "##;
pub const MULTI_XY_JS_9: &'static str = r##",
                height: "##;
pub const MULTI_XY_JS_10: &'static str = r##"
              };
        
            Plotly.newPlot( PLOT"##;
pub const MULTI_XY_JS_11: &'static str = r##", data"##;
pub const MULTI_XY_JS_12: &'static str = r##", layout"##;
pub const MULTI_XY_JS_13: &'static str = r##");
            "##;

} // verus!
