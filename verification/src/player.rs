//! The sprite: where it stands, where it faces, how the arrow keys move it
//! and what is drawn for it.

use vstd::prelude::*;
use crate::angle::Radians;
use crate::geometry::{is_coordinate, Offset, Point, Rect};
use crate::input::Keys;

verus! {

/// Length in pixels of the line that shows the heading.
pub const INDICATOR_RADIUS: u32 = 64;

/// How far below the top edge a centred heading line starts.
pub const ANCHOR_DROP: i32 = 16;

/// Bit pattern of the spinning sprite's first heading: pi times 1.25.
pub const SPINNY_START_BITS: u32 = 0x407B_53D2;

/// Bit pattern of the spinning sprite's turn per frame: 0.2.
pub const SPINNY_STEP_BITS: u32 = 0x3E4C_CCCD;

/// The spinning sprite's step per frame, in pixels.
pub const SPINNY_STRIDE: u32 = 16;

/// Bit pattern of the plain sprite's turn per frame: 0.1.
pub const DEMO_STEP_BITS: u32 = 0x3DCC_CCCD;

/// Where the line that shows the heading starts.
#[derive(Clone, Copy, Debug, PartialEq, Eq, Structural)]
pub enum Anchor {
    /// At the top-left corner of the sprite.
    Corner,
    /// At the horizontal centre of the sprite, `ANCHOR_DROP` pixels below
    /// its top edge.
    Center,
}

/// What tells one flavour of the sprite from another.
#[derive(Clone, Copy, Debug, PartialEq, Eq, Structural)]
pub struct Style {
    /// The heading at the start.
    pub start: Radians,
    /// How far one frame turns the sprite while Left or Right is held.
    pub step: Radians,
    /// How far one frame moves the sprite while Up is held; `None` where Up
    /// does nothing.
    pub stride: Option<u32>,
    /// Where the heading line starts.
    pub anchor: Anchor,
}

/// A colour, by its red, green and blue parts.
#[derive(Clone, Copy, Debug, PartialEq, Eq, Structural)]
pub struct Color {
    pub r: u8,
    pub g: u8,
    pub b: u8,
}

/// One call on the canvas.
#[derive(Clone, Copy, Debug, PartialEq, Eq, Structural)]
pub enum Command {
    /// Copy the region `source` of the sprite's texture into `target`,
    /// scaled to fit.
    Copy { source: Rect, target: Rect },
    /// Draw with `color` from now on.
    SetDrawColor { color: Color },
    /// Draw a straight line.
    DrawLine { from: Point, to: Point },
}

/// The sprite on the screen.
pub struct Player<T> {
    /// The box it is drawn into.
    pub location: Rect,
    /// Where it faces.
    pub yaw: Radians,
    /// The region of the texture that holds its picture.
    pub texture_location: Rect,
    /// The texture, which it does not own.
    pub texture: T,
    /// Its flavour.
    pub style: Style,
}

impl Color {
    /// The colour of the heading line.
    pub open spec fn spec_accent() -> Color {
        Color { r: 99, g: 155, b: 255 }
    }

    /// The colour of the heading line, which is that of the sprite.
    #[verifier::when_used_as_spec(spec_accent)]
    pub fn accent() -> (c: Color)
        ensures
            c == Color::spec_accent(),
    {
        Color { r: 99, g: 155, b: 255 }
    }
}

impl Style {
    /// The style of the spinning sprite.
    pub open spec fn spec_spinny() -> Style {
        Style {
            start: Radians { bits: SPINNY_START_BITS },
            step: Radians { bits: SPINNY_STEP_BITS },
            stride: Some(SPINNY_STRIDE),
            anchor: Anchor::Center,
        }
    }

    /// The style of the plain sprite that starts at `start`.
    pub open spec fn spec_demo(start: Radians) -> Style {
        Style { start, step: Radians { bits: DEMO_STEP_BITS }, stride: None, anchor: Anchor::Corner }
    }

    /// The spinning sprite: it starts at pi times 1.25, turns by 0.2 a
    /// frame, walks 16 pixels a frame, and its heading line starts at its
    /// centre.
    #[verifier::when_used_as_spec(spec_spinny)]
    pub fn spinny() -> (s: Style)
        ensures
            s == Style::spec_spinny(),
    {
        Style {
            start: Radians { bits: SPINNY_START_BITS },
            step: Radians { bits: SPINNY_STEP_BITS },
            stride: Some(SPINNY_STRIDE),
            anchor: Anchor::Center,
        }
    }

    /// The plain sprite: it starts at `start`, turns by 0.1 a frame, does
    /// not walk, and its heading line starts at its corner.
    #[verifier::when_used_as_spec(spec_demo)]
    pub fn demo(start: Radians) -> (s: Style)
        ensures
            s == Style::spec_demo(start),
    {
        Style { start, step: Radians { bits: DEMO_STEP_BITS }, stride: None, anchor: Anchor::Corner }
    }
}

impl<T> Player<T> {
    /// A sprite in the box `location`, with its picture in the region
    /// `texture_location` of `texture`, facing where its style starts.
    pub fn new(location: Rect, texture_location: Rect, texture: T, style: Style) -> (p: Player<T>)
        ensures
            p.location == location,
            p.yaw == style.start,
            p.texture_location == texture_location,
            p.texture == texture,
            p.style == style,
    {
        Player { location, yaw: style.start, texture_location, texture, style }
    }

    /// The length of the step that the keys ask for: the stride where Up is
    /// held and the style has one.
    pub open spec fn spec_stride(&self, keys: Keys) -> Option<u32> {
        if keys.up {
            self.style.stride
        } else {
            None
        }
    }

    /// The length of the step that the keys ask for.
    #[verifier::when_used_as_spec(spec_stride)]
    pub fn stride(&self, keys: Keys) -> (r: Option<u32>)
        ensures
            r == self.spec_stride(keys),
    {
        if keys.up {
            self.style.stride
        } else {
            None
        }
    }

    /// The heading once Right has been handled, `sum` being the heading
    /// plus the step.
    pub open spec fn yaw_after_right(&self, keys: Keys, sum: Radians) -> Radians {
        if keys.right {
            Radians::settle_ahead(sum)
        } else {
            self.yaw
        }
    }

    /// The heading once Right and Left have been handled, `diff` being the
    /// heading after Right minus the step.
    pub open spec fn yaw_after_left(&self, keys: Keys, sum: Radians, diff: Radians) -> Radians {
        if keys.left {
            Radians::settle_behind(diff)
        } else {
            self.yaw_after_right(keys, sum)
        }
    }

    /// The box once Up has been handled, `thrust` being the stride rotated
    /// by the heading.
    pub open spec fn location_after_up(&self, keys: Keys, thrust: Offset) -> Rect {
        if self.stride(keys) is Some {
            self.location.shifted(thrust)
        } else {
            self.location
        }
    }

    /// The sprite after a frame with these keys, `thrust` being the stride
    /// rotated by the heading, `sum` the heading plus the step, and `diff`
    /// the heading that Right left behind minus the step. Only the box and
    /// the heading change.
    pub open spec fn moved(self, keys: Keys, thrust: Offset, sum: Radians, diff: Radians) -> Player<
        T,
    > {
        Player {
            location: self.location_after_up(keys, thrust),
            yaw: self.yaw_after_left(keys, sum, diff),
            ..self
        }
    }

    /// Whether `thrust`, `sum` and `diff` can be what the three functions
    /// return in a frame with these keys: `rotate` for the heading and the
    /// stride, `plus` for the heading and the step, `minus` for the heading
    /// that Right left behind and the step. Of a function that the frame
    /// does not call nothing is asked.
    pub open spec fn reckoned<R, A, S>(
        &self,
        keys: Keys,
        rotate: R,
        plus: A,
        minus: S,
        thrust: Offset,
        sum: Radians,
        diff: Radians,
    ) -> bool where
        R: Fn(Radians, u32) -> Offset,
        A: Fn(Radians, Radians) -> Radians,
        S: Fn(Radians, Radians) -> Radians,
     {
        &&& self.stride(keys) matches Some(length) ==> rotate.ensures(
            (self.yaw, length),
            thrust,
        )
        &&& keys.right ==> plus.ensures((self.yaw, self.style.step), sum)
        &&& keys.left ==> minus.ensures((self.yaw_after_right(keys, sum), self.style.step), diff)
    }

    /// One frame of input. Up moves the box by the stride rotated by the
    /// heading; Right adds the step to the heading and starts again at zero
    /// past the full turn; Left takes the step off and starts again at the
    /// full turn below zero; Down does nothing. The keys are handled in
    /// this order, each on what the one before left.
    pub fn move_player<R, A, S>(&mut self, keys: Keys, rotate: R, plus: A, minus: S) where
        R: Fn(Radians, u32) -> Offset,
        A: Fn(Radians, Radians) -> Radians,
        S: Fn(Radians, Radians) -> Radians,

        requires
            old(self).stride(keys) matches Some(length) ==> rotate.requires(
                (old(self).yaw, length),
            ),
            old(self).stride(keys) matches Some(length) ==> (forall|thrust: Offset| #[trigger]
                rotate.ensures((old(self).yaw, length), thrust) ==> old(self).location.can_shift(
                    thrust,
                )),
            keys.right ==> plus.requires((old(self).yaw, old(self).style.step)),
            keys.left ==> (forall|sum: Radians|
                (keys.right ==> plus.ensures((old(self).yaw, old(self).style.step), sum))
                    ==> minus.requires(
                    (#[trigger] old(self).yaw_after_right(keys, sum), old(self).style.step),
                )),
        ensures
            (exists|thrust: Offset, sum: Radians, diff: Radians| #[trigger]
                old(self).reckoned(keys, rotate, plus, minus, thrust, sum, diff) && *final(self)
                    == old(self).moved(keys, thrust, sum, diff)),
    {
        let ghost before = *self;
        let mut thrust = Offset { dx: 0, dy: 0 };
        let mut sum = self.yaw;
        let mut diff = self.yaw;
        if let Some(length) = self.stride(keys) {
            thrust = rotate(self.yaw, length);
            self.location = self.location.shifted(thrust);
        }
        if keys.right {
            sum = plus(self.yaw, self.style.step);
            self.yaw = Radians::settle_ahead(sum);
        }
        if keys.left {
            assert(self.yaw == before.yaw_after_right(keys, sum));
            diff = minus(self.yaw, self.style.step);
            self.yaw = Radians::settle_behind(diff);
        }
        assert(before.reckoned(keys, rotate, plus, minus, thrust, sum, diff));
    }

    /// Where the heading line starts, across.
    pub open spec fn anchor_x(&self) -> int {
        match self.style.anchor {
            Anchor::Corner => self.location.x as int,
            Anchor::Center => self.location.x + self.location.w as int / 2,
        }
    }

    /// Where the heading line starts, down.
    pub open spec fn anchor_y(&self) -> int {
        match self.style.anchor {
            Anchor::Corner => self.location.y as int,
            Anchor::Center => self.location.y + ANCHOR_DROP,
        }
    }

    /// Whether the heading line that reaches `reach` from its start has
    /// pixel coordinates at both ends.
    pub open spec fn spec_can_point(&self, reach: Offset) -> bool {
        &&& is_coordinate(self.anchor_x())
        &&& is_coordinate(self.anchor_y())
        &&& is_coordinate(self.anchor_x() + reach.dx)
        &&& is_coordinate(self.anchor_y() + reach.dy)
    }

    /// The heading line that reaches `reach` from its start.
    pub open spec fn heading_line(&self, reach: Offset) -> Command
        recommends
            self.spec_can_point(reach),
    {
        Command::DrawLine {
            from: Point { x: self.anchor_x() as i32, y: self.anchor_y() as i32 },
            to: Point {
                x: (self.anchor_x() + reach.dx) as i32,
                y: (self.anchor_y() + reach.dy) as i32,
            },
        }
    }

    /// What is drawn for the sprite, in order: its picture, the line's
    /// colour, the heading line.
    pub open spec fn spec_scene(&self, reach: Offset) -> Seq<Command>
        recommends
            self.spec_can_point(reach),
    {
        seq![
            Command::Copy { source: self.texture_location, target: self.location },
            Command::SetDrawColor { color: Color::accent() },
            self.heading_line(reach),
        ]
    }

    /// Whether the heading line that reaches `reach` from its start has
    /// pixel coordinates at both ends.
    #[verifier::when_used_as_spec(spec_can_point)]
    pub fn can_point(&self, reach: Offset) -> (r: bool)
        ensures
            r == self.spec_can_point(reach),
    {
        let (x, y): (i64, i64) = match self.style.anchor {
            Anchor::Corner => (self.location.x as i64, self.location.y as i64),
            Anchor::Center => (
                self.location.x as i64 + self.location.half_width() as i64,
                self.location.y as i64 + ANCHOR_DROP as i64,
            ),
        };
        let tip_x: i64 = x + reach.dx as i64;
        let tip_y: i64 = y + reach.dy as i64;
        let low: i64 = i32::MIN as i64;
        let high: i64 = i32::MAX as i64;
        low <= x && x <= high && low <= y && y <= high && low <= tip_x && tip_x <= high && low
            <= tip_y && tip_y <= high
    }

    /// The calls that draw the sprite with a heading line that reaches
    /// `reach` from its start.
    pub fn scene(&self, reach: Offset) -> (calls: Vec<Command>)
        requires
            self.can_point(reach),
        ensures
            calls@ == self.spec_scene(reach),
    {
        let from = match self.style.anchor {
            Anchor::Corner => Point { x: self.location.x, y: self.location.y },
            Anchor::Center => Point {
                x: self.location.x + self.location.half_width(),
                y: self.location.y + ANCHOR_DROP,
            },
        };
        let to = from.shifted(reach);
        let calls = vec![
            Command::Copy { source: self.texture_location, target: self.location },
            Command::SetDrawColor { color: Color::accent() },
            Command::DrawLine { from, to },
        ];
        assert(calls@ =~= self.spec_scene(reach));
        calls
    }

    /// The calls that draw the sprite: its picture scaled into its box,
    /// then a line from its anchor to where `rotate` takes the indicator's
    /// radius at the heading.
    pub fn draw<R>(&self, rotate: R) -> (calls: Vec<Command>) where
        R: Fn(Radians, u32) -> Offset,

        requires
            rotate.requires((self.yaw, INDICATOR_RADIUS)),
            (forall|reach: Offset| #[trigger]
                rotate.ensures((self.yaw, INDICATOR_RADIUS), reach) ==> self.can_point(reach)),
        ensures
            (exists|reach: Offset| #[trigger]
                rotate.ensures((self.yaw, INDICATOR_RADIUS), reach) && calls@ == self.spec_scene(
                    reach,
                )),
    {
        let reach = rotate(self.yaw, INDICATOR_RADIUS);
        self.scene(reach)
    }
}

/// A frame with Right held and Left not leaves the heading at the sum,
/// settled; a frame with Left held leaves it at the difference, settled; a
/// frame with neither leaves it alone.
pub proof fn lemma_frame_turns<T>(
    player: Player<T>,
    keys: Keys,
    thrust: Offset,
    sum: Radians,
    diff: Radians,
)
    ensures
        keys.right && !keys.left ==> player.moved(keys, thrust, sum, diff).yaw
            == Radians::settle_ahead(sum),
        keys.left ==> player.moved(keys, thrust, sum, diff).yaw == Radians::settle_behind(diff),
        !keys.right && !keys.left ==> player.moved(keys, thrust, sum, diff).yaw == player.yaw,
{
}

/// A frame leaves the heading within one turn where it found it so, as
/// long as the addition gives a number that is not below zero and the
/// subtraction a number that is not past the full turn.
pub proof fn lemma_frame_keeps_heading_within_turn<T>(
    player: Player<T>,
    keys: Keys,
    thrust: Offset,
    sum: Radians,
    diff: Radians,
)
    requires
        player.yaw.within_turn(),
        keys.right ==> !sum.is_nan() && !sum.falls_below(Radians::zero()),
        keys.left ==> !diff.is_nan() && !diff.exceeds(Radians::full_turn()),
    ensures
        player.moved(keys, thrust, sum, diff).yaw.within_turn(),
{
}

/// Down does nothing: a frame with Down held ends as the same frame
/// without it.
pub proof fn lemma_down_does_nothing<T>(
    player: Player<T>,
    keys: Keys,
    thrust: Offset,
    sum: Radians,
    diff: Radians,
)
    ensures
        ({
            let other = Keys { down: !keys.down, ..keys };
            &&& player.stride(other) == player.stride(keys)
            &&& player.moved(other, thrust, sum, diff) == player.moved(keys, thrust, sum, diff)
        }),
{
}

/// A sprite whose style has no stride stays in its box whatever is held.
pub proof fn lemma_no_stride_no_step<T>(player: Player<T>, keys: Keys, thrust: Offset)
    requires
        player.style.stride is None,
    ensures
        player.stride(keys) is None,
        player.location_after_up(keys, thrust) == player.location,
{
}

/// The heading line ends `reach` from where it starts.
pub proof fn lemma_heading_line_spans_reach<T>(player: Player<T>, reach: Offset)
    requires
        player.can_point(reach),
    ensures
        (player.heading_line(reach) matches Command::DrawLine { from, to } && to.x - from.x
            == reach.dx && to.y - from.y == reach.dy),
{
}

} // verus!
