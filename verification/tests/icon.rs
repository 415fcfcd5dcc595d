use noisebox::icon::icon_rgba;
use noisebox::icon::playing_icon_rgba;
use noisebox::icon::stopped_icon_rgba;

fn expected_byte(r: u8, g: u8, b: u8, x: i64, y: i64, c: usize) -> u8 {
    let inside = (x - 16) * (x - 16) + (y - 16) * (y - 16) <= 14 * 14;
    if inside {
        [r, g, b, 255][c]
    } else {
        0
    }
}

#[test]
fn icon_is_the_expected_disc() {
    let buf = icon_rgba(10, 20, 30);
    assert_eq!(buf.len(), 32 * 32 * 4);
    for y in 0..32i64 {
        for x in 0..32i64 {
            for c in 0..4usize {
                let i = (y * 32 + x) as usize * 4 + c;
                assert_eq!(buf[i], expected_byte(10, 20, 30, x, y, c), "byte {i}");
            }
        }
    }
}

#[test]
fn icon_centre_and_corners() {
    let buf = icon_rgba(200, 100, 50);
    // the centre pixel carries the colour, fully opaque
    let centre = (16 * 32 + 16) * 4;
    assert_eq!(&buf[centre..centre + 4], &[200, 100, 50, 255]);
    // the corners are transparent black
    for &(x, y) in &[(0usize, 0usize), (31, 0), (0, 31), (31, 31)] {
        let i = (y * 32 + x) * 4;
        assert_eq!(&buf[i..i + 4], &[0, 0, 0, 0]);
    }
}

#[test]
fn state_icons_carry_their_colours() {
    let stopped = stopped_icon_rgba();
    let playing = playing_icon_rgba();
    let centre = (16 * 32 + 16) * 4;
    // blue disc while stopped, green disc while playing
    assert_eq!(&stopped[centre..centre + 4], &[100, 149, 237, 255]);
    assert_eq!(&playing[centre..centre + 4], &[76, 175, 80, 255]);
    assert_eq!(stopped.len(), playing.len());
}
