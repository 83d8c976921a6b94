use pdf_font_cache::viewer::{round_to_16, round_v_to_16, Context};

#[test]
fn new_context_shows_first_page() {
    let ctx = Context::new();
    assert_eq!(ctx.page_nr(), 0);
    assert_eq!(ctx.num_pages(), 1);
    assert!(ctx.redraw_requested());
    assert!(!ctx.is_closed());
}

#[test]
fn goto_page_clamps_to_last_page() {
    let mut ctx = Context::new();
    ctx.set_num_pages(5);
    ctx.goto_page(3);
    assert_eq!(ctx.page_nr(), 3);
    ctx.goto_page(99);
    assert_eq!(ctx.page_nr(), 4);
}

#[test]
fn next_and_prev_stay_in_range() {
    let mut ctx = Context::new();
    ctx.set_num_pages(2);
    ctx.prev_page();
    assert_eq!(ctx.page_nr(), 0);
    ctx.next_page();
    assert_eq!(ctx.page_nr(), 1);
    ctx.next_page();
    assert_eq!(ctx.page_nr(), 1);
    ctx.prev_page();
    assert_eq!(ctx.page_nr(), 0);
}

#[test]
fn close_sets_flag() {
    let mut ctx = Context::new();
    ctx.close();
    assert!(ctx.is_closed());
    assert_eq!(ctx.page_nr(), 0);
}

#[test]
fn round_to_16_rounds_up() {
    assert_eq!(round_to_16(0), 0);
    assert_eq!(round_to_16(1), 16);
    assert_eq!(round_to_16(16), 16);
    assert_eq!(round_to_16(17), 32);
    assert_eq!(round_to_16(-1), 0);
    assert_eq!(round_to_16(-16), -16);
    assert_eq!(round_to_16(-17), -16);
}

#[test]
fn round_v_to_16_rounds_both() {
    assert_eq!(round_v_to_16(1, 33), (16, 48));
    assert_eq!(round_v_to_16(-5, 0), (0, 0));
}
