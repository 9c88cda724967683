use pwm_fan::buffer::FileBuffer;

#[test]
fn new_buffers_are_empty() {
    let b = FileBuffer::new();
    assert_eq!(b.path_buf, "");
    assert_eq!(b.content_buf, "");
}

#[test]
fn enable_path_appends_suffix() {
    let mut b = FileBuffer::new();
    b.make_enable_path("/sys/class/hwmon/hwmon2/pwm1");
    assert_eq!(b.path_buf, "/sys/class/hwmon/hwmon2/pwm1_enable");
}

#[test]
fn enable_path_replaces_previous_content() {
    let mut b = FileBuffer::new();
    b.make_enable_path("/dev/a");
    b.make_enable_path("/dev/b");
    assert_eq!(b.path_buf, "/dev/b_enable");
}
