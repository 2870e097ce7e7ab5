// Callbacks and what a message from the page makes them do.
use rwui::events::handle_ws_message;
use rwui::{Callbacks, GuiCfg, UiCommand, WsAction};

fn invoke(index: usize, text: &str, value: i32) -> WsAction {
    WsAction::Invoke { index, text: text.to_string(), value }
}

fn same(a: &[WsAction], b: &[WsAction]) -> bool {
    a.len() == b.len()
        && a.iter().zip(b.iter()).all(|(x, y)| match (x, y) {
            (
                WsAction::Invoke { index: i, text: t, value: v },
                WsAction::Invoke { index: j, text: u, value: w },
            ) => i == j && t == u && v == w,
            (WsAction::ChangeText { index: i, text: t }, WsAction::ChangeText { index: j, text: u }) => {
                i == j && t == u
            },
            (
                WsAction::InvokeWithFileName { index: i, path: t },
                WsAction::InvokeWithFileName { index: j, path: u },
            ) => i == j && t == u,
            (WsAction::Abort, WsAction::Abort) => true,
            _ => false,
        })
}

#[test]
fn callbacks_are_registered_in_order() {
    let mut gc = GuiCfg::default();
    let (mut cbs, _body) = gc.init::<u32>("t");
    let b = gc.button_new("primary", "x");
    let l = gc.label_new("y");
    b.callback(&mut cbs, 10);
    l.callback(&mut cbs, 20);
    assert_eq!(cbs.len(), 2);
    assert_eq!(cbs.element(0).id_str(), "ID1");
    assert_eq!(cbs.element(1).id_str(), "ID2");
    assert_eq!(*cbs.handler_mut(1), 20);
    *cbs.handler_mut(0) += 1;
    assert_eq!(*cbs.handler_mut(0), 11);
}

#[test]
fn button_press_runs_its_handler() {
    let mut gc = GuiCfg::default();
    let (mut cbs, _body) = gc.init::<()>("t");
    let b1 = gc.button_new("primary", "a");
    let b2 = gc.button_new("primary", "b");
    b1.callback(&mut cbs, ());
    b2.callback(&mut cbs, ());
    assert!(same(&handle_ws_message(&cbs, "/ID2"), &[invoke(1, "", 0)]));
    assert!(same(&handle_ws_message(&cbs, "/ID1"), &[invoke(0, "", 0)]));
}

#[test]
fn every_callback_of_the_element_runs() {
    let mut gc = GuiCfg::default();
    let mut cbs: Callbacks<()> = Callbacks::default();
    let b = gc.button_new("primary", "a");
    b.callback(&mut cbs, ());
    b.callback(&mut cbs, ());
    assert!(same(&handle_ws_message(&cbs, "/ID1"), &[invoke(0, "", 0), invoke(1, "", 0)]));
}

#[test]
fn text_input_gets_the_text() {
    let mut gc = GuiCfg::default();
    let mut cbs: Callbacks<()> = Callbacks::default();
    let i = gc.inputtext_new("type");
    i.callback(&mut cbs, ());
    assert!(same(&handle_ws_message(&cbs, "/ID1@@hello world"), &[invoke(0, "hello world", 0)]));
}

#[test]
fn dropdown_shows_choice_then_runs() {
    let mut gc = GuiCfg::default();
    let mut cbs: Callbacks<()> = Callbacks::default();
    let d = gc.dropdown_new("secondary", "Font", vec!["arial", "verdana"]);
    d.callback(&mut cbs, ());
    let acts = handle_ws_message(&cbs, "/ID1@@verdana");
    assert!(same(
        &acts,
        &[WsAction::ChangeText { index: 0, text: "verdana".to_string() }, invoke(0, "verdana", 0)]
    ));
}

#[test]
fn radio_and_slider_get_a_number() {
    let mut gc = GuiCfg::default();
    let mut cbs: Callbacks<()> = Callbacks::default();
    let r = gc.radio_new(&vec!["a", "b", "c"], 0);
    let s = gc.rangeslider_new("5", "0", "10", "1");
    r.callback(&mut cbs, ());
    s.callback(&mut cbs, ());
    assert!(same(&handle_ws_message(&cbs, "/ID1radio@@2"), &[invoke(0, "2", 2)]));
    assert!(same(&handle_ws_message(&cbs, "/ID4@@-7"), &[invoke(1, "-7", -7)]));
}

#[test]
fn slider_with_a_fraction_stops_the_thread() {
    let mut gc = GuiCfg::default();
    let mut cbs: Callbacks<()> = Callbacks::default();
    let s = gc.rangeslider_new("0.5", "0", "1", "0.1");
    s.callback(&mut cbs, ());
    assert!(same(&handle_ws_message(&cbs, "/ID1@@0.5"), &[WsAction::Abort]));
}

#[test]
fn missing_value_stops_the_thread() {
    let mut gc = GuiCfg::default();
    let mut cbs: Callbacks<()> = Callbacks::default();
    let i = gc.inputtext_new("x");
    i.callback(&mut cbs, ());
    i.callback(&mut cbs, ());
    assert!(same(&handle_ws_message(&cbs, "/ID1"), &[WsAction::Abort]));
}

#[test]
fn other_messages_do_nothing() {
    let mut gc = GuiCfg::default();
    let mut cbs: Callbacks<()> = Callbacks::default();
    let b = gc.button_new("primary", "a");
    let l = gc.label_new("x");
    b.callback(&mut cbs, ());
    l.callback(&mut cbs, ());
    assert!(handle_ws_message(&cbs, "CLOSE").is_empty());
    assert!(handle_ws_message(&cbs, "ID1").is_empty());
    assert!(handle_ws_message(&cbs, "/ID9").is_empty());
    assert!(handle_ws_message(&cbs, "/ID2@@x").is_empty());
}

#[test]
fn commands_reach_the_websocket_channel() {
    let mut gc = GuiCfg::default();
    let rx = gc.ws_receiver();
    let b = gc.button_new("primary", "a");
    let l = gc.label_new("b");
    let m = gc.modal_new("t", "x", "y", "n");
    b.change_text("Changed");
    l.change_text("Start");
    b.change_to_disable();
    b.change_to_enable();
    b.click();
    l.change_image("a.png");
    l.change_font_family("arial");
    l.change_font_size("large");
    l.change_color("red");
    l.change_background_color("#66ffff");
    m.modal_show();
    l.modal_show();
    let got: Vec<String> = rx.try_iter().collect();
    assert_eq!(
        got,
        vec![
            "TEXT@ID1text@Changed",
            "TEXT@ID2@Start",
            "ENABLE@ID1@DISABLE",
            "ENABLE@ID1@ENABLE",
            "CLICK@ID1",
            "IMAGE@ID2@a.png",
            "FONTFAMILY@ID2@arial",
            "FONTSIZE@ID2@large",
            "COLOR@ID2@red",
            "BCOLOR@ID2@#66ffff",
            "MODALSHOW@ID3ID4@dummy",
        ]
    );
}

#[test]
fn chart_redraw_messages() {
    let mut gc = GuiCfg::default();
    let rx = gc.ws_receiver();
    let ys: Vec<String> = [1.0f64, 2.5].iter().map(|v| format!("{:7.2}", v)).collect();
    let xs = vec!["a".to_string(), "b".to_string()];
    let p = gc.plot_line_new(&ys.clone(), &ys, "t", "x", "y", 100, 100);
    p.plot_redrawy(&ys);
    p.plot_redrawxsy(&xs, &ys);
    let got: Vec<String> = rx.try_iter().collect();
    assert_eq!(got[0], "PREDRAWY@ID1@2@   1.00@   2.50");
    assert_eq!(got[1], "PREDRAWXSY@ID1@2@   1.00@   2.50@a@b");
    assert_eq!(p.message(&UiCommand::Click), "CLICK@ID1");
}

#[test]
fn each_addressed_callback_runs_once_in_order() {
    let mut gc = GuiCfg::default();
    let mut cbs: Callbacks<()> = Callbacks::default();
    let s = gc.rangeslider_new("5", "0", "10", "1");
    let b = gc.button_new("primary", "a");
    let l = gc.label_new("x");
    s.callback(&mut cbs, ());
    b.callback(&mut cbs, ());
    l.callback(&mut cbs, ());
    s.callback(&mut cbs, ());
    assert!(same(&handle_ws_message(&cbs, "/ID1@@42"), &[invoke(0, "42", 42), invoke(3, "42", 42)]));
    assert!(handle_ws_message(&cbs, "/ID3").is_empty());
}
