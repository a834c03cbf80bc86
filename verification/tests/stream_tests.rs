use audio_player::sound_design::file_reader::{total_sample_count, SampleCursor};
use audio_player::sound_design::play::{choose_buffer_size, BufferSizeChoice, BufferSizeRange, OPTIMUM_BUFFER_SIZE};

#[test]
fn total_sample_count_formula() {
    assert_eq!(total_sample_count(Some(1000), Some(2)), Some(2000));
    assert_eq!(total_sample_count(Some(1000), Some(1)), Some(1000));
    assert_eq!(total_sample_count(Some(7), None), Some(14));
    assert_eq!(total_sample_count(None, Some(6)), None);
}

#[test]
fn cursor_hands_out_in_order_then_asks_for_more() {
    let mut c = SampleCursor::new(vec![0.5f32, -0.5]);
    assert_eq!(c.served(), 0);
    assert_eq!(c.remaining(), 2);
    assert_eq!(c.next_buffered(), Some(0.5));
    assert_eq!(c.next_buffered(), Some(-0.5));
    assert_eq!(c.next_buffered(), None);
    assert_eq!(c.next_buffered(), None);
    assert_eq!(c.served(), 2);
    c.refill(vec![0.25]);
    assert_eq!(c.served(), 2);
    assert_eq!(c.remaining(), 1);
    assert_eq!(c.next_buffered(), Some(0.25));
    c.refill(vec![]);
    assert_eq!(c.next_buffered(), None);
    assert_eq!(c.served(), 3);
}

#[test]
fn buffer_size_choice() {
    assert_eq!(OPTIMUM_BUFFER_SIZE, 1024);
    assert_eq!(
        choose_buffer_size(&BufferSizeRange::Range { min: 64, max: 4096 }),
        BufferSizeChoice::Fixed(1024)
    );
    assert_eq!(
        choose_buffer_size(&BufferSizeRange::Range { min: 2048, max: 4096 }),
        BufferSizeChoice::Fixed(2048)
    );
    assert_eq!(
        choose_buffer_size(&BufferSizeRange::Range { min: 16, max: 512 }),
        BufferSizeChoice::Fixed(512)
    );
    assert_eq!(choose_buffer_size(&BufferSizeRange::Unknown), BufferSizeChoice::Default);
}
