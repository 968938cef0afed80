use region_zoom::raster::fill_gradient;

#[test]
fn gradient_fills_all_three_planes() {
    let (w, h, pitch) = (4usize, 4usize, 6usize);
    let len = pitch * h + 2 * ((h / 2) * (pitch / 2));
    let mut buf = vec![7u8; len];
    fill_gradient(&mut buf, pitch, w, h);
    for y in 0..h {
        for x in 0..pitch {
            let expected = if x < w { 128 } else { 7 };
            assert_eq!(buf[y * pitch + x], expected);
        }
    }
    let y_size = pitch * h;
    let q = pitch / 2;
    // first chroma plane: 0, 128 across; second: 0 then 128 down
    assert_eq!(&buf[y_size..y_size + q], &[0, 128, 7]);
    assert_eq!(&buf[y_size + q..y_size + 2 * q], &[0, 128, 7]);
    assert_eq!(&buf[y_size + 2 * q..y_size + 3 * q], &[0, 0, 7]);
    assert_eq!(&buf[y_size + 3 * q..y_size + 4 * q], &[128, 128, 7]);
}

#[test]
fn gradient_of_window_size() {
    let (w, h, pitch) = (640usize, 480usize, 640usize);
    let len = pitch * h + 2 * (pitch / 2 * h / 2);
    let mut buf = vec![0u8; len];
    fill_gradient(&mut buf, pitch, w, h);
    let y_size = pitch * h;
    assert!(buf[..y_size].iter().all(|&b| b == 128));
    assert_eq!(buf[y_size + 319], (319 * 256 / 320) as u8);
    assert_eq!(buf[y_size + 160], 128);
    let v_row_1 = y_size + (240 + 1) * 320;
    assert_eq!(buf[v_row_1], (256 / 240) as u8);
    assert_eq!(buf[len - 1], (239 * 256 / 240) as u8);
}
