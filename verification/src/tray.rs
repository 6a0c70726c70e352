//! The status-notifier tray: its title, menu entry and the microphone icon
//! drawn in a colour that follows the recording phase.
use vstd::prelude::*;

use crate::recording::RecordingPhase;

verus! {

/// Width and height of the tray icon, in pixels.
pub const TRAY_ICON_SIZE: i32 = 22;

/// RGBA colour of the icon while idle.
pub const TRAY_IDLE_COLOR: [u8; 4] = [255, 255, 255, 255];

/// RGBA colour of the icon while arming or recording.
pub const TRAY_RECORDING_COLOR: [u8; 4] = [239, 68, 68, 255];

/// RGBA colour of the icon while the audio is processed.
pub const TRAY_PROCESSING_COLOR: [u8; 4] = [245, 158, 11, 255];

/// An ARGB32 pixmap, rows from the top, four bytes per pixel.
pub struct TrayIcon {
    pub width: i32,
    pub height: i32,
    pub data: Vec<u8>,
}

/// The RGBA colour of each phase.
pub open spec fn phase_color(phase: RecordingPhase) -> Seq<u8> {
    match phase {
        RecordingPhase::Idle => seq![255u8, 255u8, 255u8, 255u8],
        RecordingPhase::Arming | RecordingPhase::Recording => seq![239u8, 68u8, 68u8, 255u8],
        RecordingPhase::Processing => seq![245u8, 158u8, 11u8, 255u8],
    }
}

/// The icon colour of a recording phase: white when idle, red while
/// arming or recording, amber while processing.
pub fn icon_color(phase: RecordingPhase) -> (c: [u8; 4])
    ensures
        c@ == phase_color(phase),
{
    match phase {
        RecordingPhase::Idle => TRAY_IDLE_COLOR,
        RecordingPhase::Arming => TRAY_RECORDING_COLOR,
        RecordingPhase::Recording => TRAY_RECORDING_COLOR,
        RecordingPhase::Processing => TRAY_PROCESSING_COLOR,
    }
}

/// The tray title of a recording phase.
pub fn tray_title(phase: RecordingPhase) -> (s: &'static str)
    ensures
        s@ == (match phase {
            RecordingPhase::Idle => "MyApp"@,
            RecordingPhase::Arming | RecordingPhase::Recording => "MyApp - Recording"@,
            RecordingPhase::Processing => "MyApp - Processing"@,
        }),
{
    match phase {
        RecordingPhase::Idle => "MyApp",
        RecordingPhase::Arming => "MyApp - Recording",
        RecordingPhase::Recording => "MyApp - Recording",
        RecordingPhase::Processing => "MyApp - Processing",
    }
}

/// The recording entry of the tray menu: its label, icon name and whether
/// it can be activated.
pub fn recording_menu_entry(phase: RecordingPhase) -> (r: (&'static str, &'static str, bool))
    ensures
        r.0@ == (match phase {
            RecordingPhase::Idle => "Start Recording"@,
            RecordingPhase::Arming | RecordingPhase::Recording => "Stop Recording"@,
            RecordingPhase::Processing => "Processing..."@,
        }),
        r.1@ == (match phase {
            RecordingPhase::Idle => "media-record"@,
            RecordingPhase::Arming | RecordingPhase::Recording => "media-playback-stop"@,
            RecordingPhase::Processing => "media-playback-pause"@,
        }),
        r.2 == (phase != RecordingPhase::Processing),
{
    match phase {
        RecordingPhase::Idle => ("Start Recording", "media-record", true),
        RecordingPhase::Arming => ("Stop Recording", "media-playback-stop", true),
        RecordingPhase::Recording => ("Stop Recording", "media-playback-stop", true),
        RecordingPhase::Processing => ("Processing...", "media-playback-pause", false),
    }
}

/// The pixels of the microphone glyph: the capsule, its cradle, the stem
/// and the base.
pub open spec fn microphone_pixel(x: int, y: int) -> bool {
    let body = if y == 4 || y == 13 {
        8 <= x <= 13
    } else if 5 <= y <= 12 {
        7 <= x <= 14
    } else {
        false
    };
    let side = (5 <= y <= 16 && (x == 5 || x == 16)) || (y == 16 && 6 <= x <= 15);
    let stem = 17 <= y <= 19 && (x == 10 || x == 11);
    let base = y == 20 && 7 <= x <= 14;
    body || side || stem || base
}

/// Whether the pixel at column `x`, row `y` belongs to the microphone.
pub fn is_microphone_pixel(x: i32, y: i32) -> (b: bool)
    ensures
        b == microphone_pixel(x as int, y as int),
{
    let body = if y == 4 || y == 13 {
        8 <= x && x <= 13
    } else if 5 <= y && y <= 12 {
        7 <= x && x <= 14
    } else {
        false
    };
    let side = ((5 <= y && y <= 16) && (x == 5 || x == 16)) || (y == 16 && 6 <= x && x <= 15);
    let stem = (17 <= y && y <= 19) && (x == 10 || x == 11);
    let base = y == 20 && 7 <= x && x <= 14;
    body || side || stem || base
}

/// The ARGB byte `k` (0 alpha, 1 red, 2 green, 3 blue) of an RGBA colour.
pub open spec fn argb_byte(color: Seq<u8>, k: int) -> u8 {
    if k == 0 {
        color[3]
    } else {
        color[k - 1]
    }
}

/// Writes `color` as an ARGB pixel at column `x`, row `y` of an icon-sized
/// buffer.
pub fn write_argb_pixel(data: &mut Vec<u8>, x: i32, y: i32, color: [u8; 4])
    requires
        0 <= x < TRAY_ICON_SIZE,
        0 <= y < TRAY_ICON_SIZE,
        old(data).len() == TRAY_ICON_SIZE * TRAY_ICON_SIZE * 4,
    ensures
        final(data).len() == old(data).len(),
        forall|i: int|
            0 <= i < final(data).len() ==> #[trigger] final(data)@[i] == if (y * TRAY_ICON_SIZE + x)
                * 4 <= i < (y * TRAY_ICON_SIZE + x) * 4 + 4 {
                argb_byte(color@, i - (y * TRAY_ICON_SIZE + x) * 4)
            } else {
                old(data)@[i]
            },
{
    let offset = ((y * TRAY_ICON_SIZE + x) * 4) as usize;
    let red = color[0];
    let green = color[1];
    let blue = color[2];
    let alpha = color[3];
    data.set(offset, alpha);
    data.set(offset + 1, red);
    data.set(offset + 2, green);
    data.set(offset + 3, blue);
}

/// The byte at index `i` of the icon drawn in `color`.
pub open spec fn icon_byte(color: Seq<u8>, i: int) -> u8 {
    let p = i / 4;
    if microphone_pixel(p % 22, p / 22) {
        argb_byte(color, i % 4)
    } else {
        0
    }
}

proof fn lemma_pixel_offsets(x: int, y: int, i: int)
    requires
        0 <= x < 22,
        0 <= y < 22,
        (y * 22 + x) * 4 <= i < (y * 22 + x) * 4 + 4,
    ensures
        i / 4 == y * 22 + x,
        (i / 4) % 22 == x,
        (i / 4) / 22 == y,
        i % 4 == i - (y * 22 + x) * 4,
{
}

/// The microphone icon drawn in `color` on a transparent square.
pub fn tray_icon_pixmap(color: [u8; 4]) -> (icon: TrayIcon)
    ensures
        icon.width == TRAY_ICON_SIZE,
        icon.height == TRAY_ICON_SIZE,
        icon.data.len() == TRAY_ICON_SIZE * TRAY_ICON_SIZE * 4,
        forall|i: int| 0 <= i < icon.data.len() ==> #[trigger] icon.data@[i] == icon_byte(color@, i),
{
    let mut data: Vec<u8> = Vec::new();
    let total: usize = (TRAY_ICON_SIZE * TRAY_ICON_SIZE * 4) as usize;
    let mut n: usize = 0;
    while n < total
        invariant
            n <= total,
            total == 22 * 22 * 4,
            data.len() == n,
            forall|i: int| 0 <= i < n ==> #[trigger] data@[i] == 0u8,
        decreases total - n,
    {
        data.push(0);
        n = n + 1;
    }
    let mut y: i32 = 0;
    while y < TRAY_ICON_SIZE
        invariant
            0 <= y <= 22,
            data.len() == 22 * 22 * 4,
            forall|i: int|
                0 <= i < data.len() ==> #[trigger] data@[i] == if i < y * 22 * 4 {
                    icon_byte(color@, i)
                } else {
                    0u8
                },
        decreases 22 - y,
    {
        let mut x: i32 = 0;
        while x < TRAY_ICON_SIZE
            invariant
                0 <= y < 22,
                0 <= x <= 22,
                data.len() == 22 * 22 * 4,
                forall|i: int|
                    0 <= i < data.len() ==> #[trigger] data@[i] == if i < (y * 22 + x) * 4 {
                        icon_byte(color@, i)
                    } else {
                        0u8
                    },
            decreases 22 - x,
        {
            let ghost before = data@;
            if is_microphone_pixel(x, y) {
                write_argb_pixel(&mut data, x, y, color);
            }
            assert forall|i: int| 0 <= i < data.len() implies #[trigger] data@[i] == if i < (y
                * 22 + x + 1) * 4 {
                icon_byte(color@, i)
            } else {
                0u8
            } by {
                if (y * 22 + x) * 4 <= i < (y * 22 + x) * 4 + 4 {
                    lemma_pixel_offsets(x as int, y as int, i);
                } else {
                    assert(data@[i] == before[i]);
                }
            }
            x = x + 1;
        }
        y = y + 1;
    }
    TrayIcon { width: TRAY_ICON_SIZE, height: TRAY_ICON_SIZE, data }
}

} // verus!
