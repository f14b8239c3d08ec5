use live_transcript::mic::{buffer_size_supported, CaptureError, StreamOptions, DEFAULT_BUFFER_SIZE};

#[test]
fn default_options_are_microphone_at_4096() {
    let opts = StreamOptions::new();
    assert_eq!(opts.buffer_size, 4096);
    assert_eq!(opts.buffer_size, DEFAULT_BUFFER_SIZE);
    assert!(!opts.from_display);
}

#[test]
fn builder_sets_buffer_size_only() {
    let opts = StreamOptions::new().with_buffer_size(1024);
    assert_eq!(opts.buffer_size, 1024);
    assert!(!opts.from_display);
}

#[test]
fn builder_sets_source_only() {
    let opts = StreamOptions::new().with_from_display(true);
    assert_eq!(opts.buffer_size, 4096);
    assert!(opts.from_display);
}

#[test]
fn default_options_validate() {
    assert_eq!(StreamOptions::new().validate(), Ok(()));
}

#[test]
fn non_power_of_two_buffer_is_invalid_options() {
    let opts = StreamOptions::new().with_buffer_size(3000);
    assert_eq!(opts.validate(), Err(CaptureError::InvalidOptions));
}

#[test]
fn zero_buffer_is_invalid_options() {
    let opts = StreamOptions::new().with_buffer_size(0);
    assert_eq!(opts.validate(), Err(CaptureError::InvalidOptions));
}

#[test]
fn power_of_two_check_edges() {
    assert!(buffer_size_supported(1));
    assert!(buffer_size_supported(2));
    assert!(buffer_size_supported(4096));
    assert!(buffer_size_supported(1 << 31));
    assert!(!buffer_size_supported(0));
    assert!(!buffer_size_supported(6));
    assert!(!buffer_size_supported(4095));
    assert!(!buffer_size_supported(u32::MAX));
}
