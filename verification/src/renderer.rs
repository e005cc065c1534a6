use crate::dancers::{
    ticks, Dancer, Roll, Step, MAX_TEXT_HEIGHT, MAX_TEXT_WIDTH, TIMER_UNIT, UNIT_VECTOR,
};
use crate::geometry::{Color, Point, Rect};
use crate::numerals::{append_decimal, decimal};
use vstd::prelude::*;
use vstd::string::*;

verus! {

/// Side of one frame on a sprite sheet, in pixels.
pub const FRAME_SIZE: u32 = 128;

/// Side of a dancer on the canvas, in pixels.
pub const PLAYER_SIZE: u32 = 48;

/// Side of one background tile, in pixels.
pub const TILE_SIZE: u32 = 600;

/// Stroke width of every outline.
pub const OUTLINE_WIDTH: u16 = 3;

/// What the drawing code keeps between frames: whether the start banner is
/// still shown, and how many frames were rendered.
#[derive(Clone, Copy, Debug, PartialEq, Eq, Structural)]
pub struct RenderContext {
    pub waiting: bool,
    pub frame: u64,
}

/// The two sprite sheets.
#[derive(Clone, Copy, Debug, PartialEq, Eq, Structural)]
pub enum Sheet {
    Dancer,
    DancerFlipped,
}

/// How a piece of outlined text is stroked and coloured.
#[derive(Clone, Copy, Debug, PartialEq, Eq, Structural)]
pub struct TextStyle {
    pub outline_width: u16,
    pub color: Color,
    pub outline_color: Color,
}

/// Where the two images of an outlined text go. The outline is drawn first.
#[derive(Clone, Copy, Debug, PartialEq, Eq, Structural)]
pub struct OutlinedText {
    pub outline: Rect,
    pub fill: Rect,
    pub style: TextStyle,
}

/// Everything that is drawn for one dancer: the part of which sheet, where
/// it goes, and where the two images of the label go.
#[derive(Clone, Copy, Debug, PartialEq, Eq, Structural)]
pub struct Sprite {
    pub sheet: Sheet,
    pub bounds: Rect,
    pub target: Rect,
    pub name_outline: Rect,
    pub name_plate: Rect,
}

/// One frame, in drawing order: the background tiles, the dancers in roster
/// order, the frame-rate overlay, and the start banner while it is shown.
#[derive(Debug)]
pub struct Frame {
    pub background: (Rect, Rect),
    pub sprites: Vec<Sprite>,
    pub overlay: OutlinedText,
    pub banner: Option<OutlinedText>,
}

pub open spec fn white() -> Color {
    Color { r: 255, g: 255, b: 255, a: 255 }
}

pub open spec fn yellow() -> Color {
    Color { r: 255, g: 255, b: 0, a: 255 }
}

pub open spec fn ink() -> Color {
    Color { r: 12, g: 12, b: 12, a: 255 }
}

/// Whether an outline fits around a text of this size.
pub open spec fn frameable(width: u32, height: u32) -> bool {
    width <= MAX_TEXT_WIDTH && height <= MAX_TEXT_HEIGHT
}

/// The outline lies three pixels up and left of the text and is five pixels
/// wider and six pixels taller.
pub open spec fn framed(target: Rect, style: TextStyle) -> OutlinedText {
    OutlinedText {
        outline: Rect {
            x: (target.x - 3) as i32,
            y: (target.y - 3) as i32,
            width: (target.width + 5) as u32,
            height: (target.height + 6) as u32,
        },
        fill: target,
        style,
    }
}

/// The style of the frame-rate overlay: yellow on dark.
pub open spec fn overlay_style() -> TextStyle {
    TextStyle { outline_width: OUTLINE_WIDTH, color: yellow(), outline_color: ink() }
}

/// The style of labels and of the banner: white on dark.
pub open spec fn label_style() -> TextStyle {
    TextStyle { outline_width: OUTLINE_WIDTH, color: white(), outline_color: ink() }
}

/// A length that swings around `base` by up to `swing` pixels with `pulse`,
/// a sine in millionths; rounded down to whole pixels.
pub open spec fn pulsed(base: int, swing: int, pulse: int) -> int {
    (base * UNIT_VECTOR + swing * pulse) / (UNIT_VECTOR as int)
}

/// The banner's width and height: 500 by 50 pixels, swinging by 50 and 10.
pub open spec fn banner_extent(pulse: i32) -> (u32, u32) {
    (pulsed(500, 50, pulse as int) as u32, pulsed(50, 10, pulse as int) as u32)
}

/// Frames per unit of time when one frame takes `delta_time`: the timer
/// steps in one unit over the timer steps of the frame, to the nearest whole.
pub open spec fn frame_rate(delta_time: u64) -> int
    recommends
        delta_time > 0,
{
    let whole = (TIMER_UNIT as int) / ticks(delta_time);
    let rest = (TIMER_UNIT as int) % ticks(delta_time);
    if 2 * rest > ticks(delta_time) {
        whole + 1
    } else {
        whole
    }
}

/// What the overlay says: the frame rate and its unit, or that the rate has
/// no bound when no time went by.
pub open spec fn overlay_says(delta_time: u64) -> Seq<char> {
    if delta_time == 0 {
        seq!['i', 'n', 'f', ' ', 'f', 'p', 's']
    } else {
        decimal(frame_rate(delta_time) as nat) + seq![' ', 'f', 'p', 's']
    }
}

/// A banner of the given size, centred on the window's centre.
pub open spec fn centred(width: u32, height: u32) -> Rect {
    Rect { x: (512 - width / 2) as i32, y: (300 - height / 2) as i32, width, height }
}

/// What is drawn for a dancer: the second frame of the sheet while the
/// animation flag is set, the flipped sheet while it faces left, the sprite
/// at the shown position, and the label centred above it inside its outline.
pub open spec fn placed(dancer: Dancer) -> Sprite {
    Sprite {
        sheet: if dancer.direction.cos < 0 {
            Sheet::DancerFlipped
        } else {
            Sheet::Dancer
        },
        bounds: Rect {
            x: if dancer.animation {
                128
            } else {
                0
            },
            y: 0,
            width: FRAME_SIZE,
            height: FRAME_SIZE,
        },
        target: Rect {
            x: dancer.position.x,
            y: dancer.position.y,
            width: PLAYER_SIZE,
            height: PLAYER_SIZE,
        },
        name_outline: Rect {
            x: (dancer.position.x + 21 - dancer.name_x / 2) as i32,
            y: (dancer.position.y - 27) as i32,
            width: (dancer.name_x + 5) as u32,
            height: (dancer.name_y + 6) as u32,
        },
        name_plate: Rect {
            x: (dancer.position.x + 24 - dancer.name_x / 2) as i32,
            y: (dancer.position.y - 24) as i32,
            width: dancer.name_x,
            height: dancer.name_y,
        },
    }
}

/// The two background tiles, side by side from the left edge.
pub fn background() -> (tiles: (Rect, Rect))
    ensures
        tiles.0 == (Rect { x: 0, y: 0, width: TILE_SIZE, height: TILE_SIZE }),
        tiles.1 == (Rect { x: 600, y: 0, width: TILE_SIZE, height: TILE_SIZE }),
{
    (Rect::new(0, 0, TILE_SIZE, TILE_SIZE), Rect::new(600, 0, TILE_SIZE, TILE_SIZE))
}

/// The style in which the dancers' labels are rendered.
pub fn game_text() -> (style: TextStyle)
    ensures
        style == label_style(),
{
    TextStyle {
        outline_width: OUTLINE_WIDTH,
        color: Color::rgba(255, 255, 255, 255),
        outline_color: Color::rgba(12, 12, 12, 255),
    }
}

/// Places a text at `target` and its outline around it.
pub fn render_outlined_text(
    target: Rect,
    outline_width: u16,
    color: Color,
    outline_color: Color,
) -> (text: OutlinedText)
    requires
        target.x >= i32::MIN + 3,
        target.y >= i32::MIN + 3,
        frameable(target.width, target.height),
    ensures
        text == framed(target, (TextStyle { outline_width, color, outline_color })),
{
    OutlinedText {
        outline: Rect::new(target.x - 3, target.y - 3, target.width + 5, target.height + 6),
        fill: target,
        style: TextStyle { outline_width, color, outline_color },
    }
}

/// Places the overlay text, whose rendered size is `width` by `height`, with
/// its top-left corner at `target`.
pub fn debug_text(target: Point, width: u32, height: u32) -> (text: OutlinedText)
    requires
        target.x >= i32::MIN + 3,
        target.y >= i32::MIN + 3,
        frameable(width, height),
    ensures
        text == framed(
            (Rect { x: target.x, y: target.y, width, height }),
            overlay_style(),
        ),
{
    render_outlined_text(
        Rect::new(target.x, target.y, width, height),
        OUTLINE_WIDTH,
        Color::rgba(255, 255, 0, 255),
        Color::rgba(12, 12, 12, 255),
    )
}

/// The text of the frame-rate overlay for a frame that took `delta_time`.
pub fn overlay_text(delta_time: u64) -> (text: String)
    ensures
        text@ == overlay_says(delta_time),
{
    proof {
        reveal_strlit("inf fps");
        reveal_strlit(" fps");
    }
    if delta_time == 0 {
        let text = String::from_str("inf fps");
        assert(text@ =~= overlay_says(delta_time));
        return text;
    }
    let passed: u128 = (delta_time as u128) * 60;
    let whole: u128 = (TIMER_UNIT as u128) / passed;
    let rest: u128 = (TIMER_UNIT as u128) % passed;
    let rate: u32 = if 2 * rest > passed {
        (whole + 1) as u32
    } else {
        whole as u32
    };
    let mut text = String::new();
    append_decimal(&mut text, rate);
    text.append(" fps");
    assert(text@ =~= overlay_says(delta_time));
    text
}

/// The banner's size for the given `pulse`, the sine of the frame count
/// over two hundred, in millionths.
pub fn banner_size(pulse: i32) -> (size: (u32, u32))
    requires
        -UNIT_VECTOR <= pulse <= UNIT_VECTOR,
    ensures
        size == banner_extent(pulse),
        450 <= size.0 <= 550,
        40 <= size.1 <= 60,
{
    let width: u64 = (500_000_000 + 50 * (pulse as i64)) as u64;
    let height: u64 = (50_000_000 + 10 * (pulse as i64)) as u64;
    ((width / 1_000_000) as u32, (height / 1_000_000) as u32)
}

/// Places the start banner of the given size.
pub fn banner(width: u32, height: u32) -> (text: OutlinedText)
    requires
        frameable(width, height),
    ensures
        text == framed(centred(width, height), label_style()),
{
    let style = game_text();
    render_outlined_text(
        Rect::new(512 - ((width / 2) as i32), 300 - ((height / 2) as i32), width, height),
        style.outline_width,
        style.color,
        style.outline_color,
    )
}

/// Works out what is drawn for a dancer as it stands.
pub fn place(dancer: &Dancer) -> (sprite: Sprite)
    requires
        dancer.wf(),
    ensures
        sprite == placed(*dancer),
{
    let half: i32 = (dancer.name_x / 2) as i32;
    Sprite {
        sheet: if dancer.direction.faces_left() {
            Sheet::DancerFlipped
        } else {
            Sheet::Dancer
        },
        bounds: Rect::new(
            if dancer.animation {
                128
            } else {
                0
            },
            0,
            FRAME_SIZE,
            FRAME_SIZE,
        ),
        target: Rect::new(dancer.position.x, dancer.position.y, PLAYER_SIZE, PLAYER_SIZE),
        name_outline: Rect::new(
            dancer.position.x + 21 - half,
            dancer.position.y - 27,
            dancer.name_x + 5,
            dancer.name_y + 6,
        ),
        name_plate: Rect::new(
            dancer.position.x + 24 - half,
            dancer.position.y - 24,
            dancer.name_x,
            dancer.name_y,
        ),
    }
}

/// Renders one frame. Every dancer is updated by `delta_time` with its own
/// roll, in roster order, and placed as it then stands. The overlay text,
/// whose rendered size is `overlay_size`, goes to the top-left corner. The
/// banner, sized by `pulse`, is part of the frame while the context is
/// waiting. The frame counter goes up by one.
pub fn render(
    context: &mut RenderContext,
    dancers: &mut Vec<Dancer>,
    delta_time: u64,
    rolls: &Vec<Roll>,
    overlay_size: (u32, u32),
    pulse: i32,
) -> (frame: Frame)
    requires
        old(context).frame < u64::MAX,
        rolls.len() == old(dancers).len(),
        forall|i: int| 0 <= i < old(dancers).len() ==> (#[trigger] old(dancers)[i]).wf(),
        forall|i: int| 0 <= i < rolls.len() ==> (#[trigger] rolls[i]).wf(),
        frameable(overlay_size.0, overlay_size.1),
        -UNIT_VECTOR <= pulse <= UNIT_VECTOR,
    ensures
        final(context).frame == old(context).frame + 1,
        final(context).waiting == old(context).waiting,
        final(dancers).len() == old(dancers).len(),
        forall|i: int|
            0 <= i < old(dancers).len() ==> (#[trigger] final(dancers)[i]) == old(dancers)[i].step(
                Step { delta_time, roll: rolls[i] },
            ),
        forall|i: int| 0 <= i < old(dancers).len() ==> (#[trigger] final(dancers)[i]).wf(),
        forall|i: int|
            0 <= i < old(dancers).len() ==> {
                &&& (#[trigger] final(dancers)[i]).name == old(dancers)[i].name
                &&& final(dancers)[i].name_x == old(dancers)[i].name_x
                &&& final(dancers)[i].name_y == old(dancers)[i].name_y
            },
        frame.background.0 == (Rect { x: 0, y: 0, width: TILE_SIZE, height: TILE_SIZE }),
        frame.background.1 == (Rect { x: 600, y: 0, width: TILE_SIZE, height: TILE_SIZE }),
        frame.sprites.len() == old(dancers).len(),
        forall|i: int|
            0 <= i < old(dancers).len() ==> (#[trigger] frame.sprites[i]) == placed(
                final(dancers)[i],
            ),
        frame.overlay == framed(
            (Rect { x: 5, y: 5, width: overlay_size.0, height: overlay_size.1 }),
            overlay_style(),
        ),
        frame.banner == if old(context).waiting {
            Some(framed(centred(banner_extent(pulse).0, banner_extent(pulse).1), label_style()))
        } else {
            None
        },
{
    let ghost before = dancers@;
    let count: usize = dancers.len();
    let mut sprites: Vec<Sprite> = Vec::new();
    let mut i: usize = 0;
    while i < count
        invariant
            i <= count,
            count == before.len(),
            dancers.len() == count,
            rolls.len() == count,
            sprites.len() == i,
            forall|j: int| 0 <= j < count ==> (#[trigger] before[j]).wf(),
            forall|j: int| 0 <= j < count ==> (#[trigger] rolls[j]).wf(),
            forall|j: int|
                0 <= j < i ==> (#[trigger] dancers[j]) == before[j].step(
                    Step { delta_time, roll: rolls[j] },
                ),
            forall|j: int| 0 <= j < i ==> (#[trigger] dancers[j]).wf(),
            forall|j: int| i <= j < count ==> (#[trigger] dancers[j]) == before[j],
            forall|j: int| 0 <= j < i ==> (#[trigger] sprites[j]) == placed(dancers[j]),
        decreases count - i,
    {
        let roll: Roll = rolls[i];
        dancers[i].update(delta_time, roll);
        let sprite = place(&dancers[i]);
        sprites.push(sprite);
        i = i + 1;
    }
    let overlay = debug_text(Point::new(5, 5), overlay_size.0, overlay_size.1);
    let banner = if context.waiting {
        let size = banner_size(pulse);
        Some(banner(size.0, size.1))
    } else {
        None
    };
    context.frame = context.frame + 1;
    Frame { background: background(), sprites, overlay, banner }
}

} // verus!
