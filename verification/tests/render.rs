use inquire::option_answer::OptionAnswer;
use inquire::pagination::paginate;
use inquire::select::{Select, SelectPrompt};

fn answers(n: usize) -> Vec<OptionAnswer> {
    (0..n).map(|i| OptionAnswer::new(i, &format!("item{}", i))).collect()
}

#[test]
fn short_list_is_one_full_page() {
    let choices = answers(3);
    let page = paginate(5, &choices, 2);
    assert_eq!(page.content.len(), 3);
    assert_eq!(page.content[0].value, "item0");
    assert_eq!(page.content[2].value, "item2");
    assert_eq!(page.selection, 2);
}

#[test]
fn window_pins_to_the_top_near_the_start() {
    let choices = answers(10);
    let page = paginate(3, &choices, 0);
    assert_eq!(page.content.len(), 3);
    assert_eq!(page.content[0].index, 0);
    assert_eq!(page.selection, 0);
}

#[test]
fn window_centers_in_the_middle() {
    let choices = answers(10);
    let page = paginate(3, &choices, 5);
    assert_eq!(page.content.len(), 3);
    assert_eq!(page.content[0].index, 4);
    assert_eq!(page.content[2].index, 6);
    assert_eq!(page.selection, 1);
}

#[test]
fn window_pins_to_the_bottom_near_the_end() {
    let choices = answers(10);
    let page = paginate(3, &choices, 9);
    assert_eq!(page.content.len(), 3);
    assert_eq!(page.content[0].index, 7);
    assert_eq!(page.content[2].index, 9);
    assert_eq!(page.selection, 2);
}

#[test]
fn scenario_eleven_options_page_follows_cursor() {
    let options: Vec<String> = (0..11).map(|i| format!("option{}", i)).collect();
    let s = Select::new("pick".to_string(), options).with_page_size(7);
    let mut p = SelectPrompt::new(s).unwrap();

    let frame = p.render_state();
    assert_eq!(frame.rows.len(), 7);
    assert_eq!(frame.rows[0].value, "option0");
    assert_eq!(frame.rows[6].value, "option6");
    assert!(frame.rows[0].selected);
    assert!(frame.rows.iter().filter(|r| r.selected).count() == 1);

    for _ in 0..7 {
        p.move_cursor_down();
    }
    assert_eq!(p.cursor_index, 7);
    let frame = p.render_state();
    assert_eq!(frame.rows.len(), 7);
    let shown: Vec<&str> = frame.rows.iter().map(|r| r.value.as_str()).collect();
    assert!(shown.contains(&"option7"));
    let selected: Vec<&str> =
        frame.rows.iter().filter(|r| r.selected).map(|r| r.value.as_str()).collect();
    assert_eq!(selected, vec!["option7"]);
}

#[test]
fn frame_echoes_message_filter_and_help() {
    let options = vec!["alpha".to_string(), "beta".to_string()];
    let s = Select::new("choose one".to_string(), options)
        .with_help_message("press enter".to_string());
    let mut p = SelectPrompt::new(s).unwrap();
    p.on_filter_change("bet".to_string());
    let frame = p.render_state();
    assert_eq!(frame.message, "choose one");
    assert_eq!(frame.filter_value, "bet");
    assert_eq!(frame.help_message, Some("press enter".to_string()));
    assert_eq!(frame.rows.len(), 1);
    assert_eq!(frame.rows[0].value, "beta");
    assert!(frame.rows[0].selected);
}

#[test]
fn empty_filtered_list_renders_no_rows() {
    let options = vec!["alpha".to_string(), "beta".to_string()];
    let s = Select::new("choose one".to_string(), options).without_help_message();
    let mut p = SelectPrompt::new(s).unwrap();
    p.on_filter_change("zzz".to_string());
    let frame = p.render_state();
    assert_eq!(frame.rows.len(), 0);
    assert_eq!(frame.help_message, None);
}
