//! The driver of the game loop.
//!
//! The driver owns the configuration and the animation phase, and nothing
//! else. It does not wait for events: whoever pumps the event source hands
//! each event to [`Game::on_event`] and issues the calls of the frame that
//! comes back, if one does. [`Game::run`] does the same for a recorded
//! stretch of events.

use vstd::prelude::*;
use crate::color::ANIMATION_STEP;
use crate::config::{EventSettings, GameConfig, WindowSettings};
use crate::grid::Viewport;
use crate::render::{frame_of, render, Frame, FrameView};

verus! {

/// What the event source reports. Only render events make the game act.
#[derive(Clone, Copy, Debug, PartialEq, Eq, Structural)]
pub enum Event {
    /// Time to redraw; carries the drawable size at this moment.
    Render(Viewport),
    /// A tick of the update clock.
    Update,
    /// A key, a button, the cursor, a resize.
    Input,
    /// Anything else the event source may come up with.
    Other,
}

/// The game loop: its configuration and how far the animation has come.
pub struct Game {
    config: GameConfig,
    phase: u64,
}

/// A game as a mathematical value.
pub ghost struct GameView {
    pub config: GameConfig,
    /// The blue of the next frame, in colour units. It starts at 0 and gains
    /// [`ANIMATION_STEP`] with every frame rendered, whatever time has passed.
    pub phase: u64,
}

impl View for Game {
    type V = GameView;

    closed spec fn view(&self) -> GameView {
        GameView { config: self.config, phase: self.phase }
    }
}

/// The viewports of the render events among `events`, in the order of the
/// events.
pub open spec fn viewports_of(events: Seq<Event>) -> Seq<Viewport>
    decreases events.len(),
{
    if events.len() == 0 {
        Seq::empty()
    } else {
        let earlier = viewports_of(events.drop_last());
        match events.last() {
            Event::Render(viewport) => earlier.push(viewport),
            _ => earlier,
        }
    }
}

/// The phase of a game that started at `phase` and has since seen `events`:
/// one step further for each render event, however many other events came
/// in between.
pub open spec fn phase_after(phase: u64, events: Seq<Event>) -> int {
    phase + viewports_of(events).len() * ANIMATION_STEP
}

/// The frames that a game at `phase` renders when it sees `events`: one for
/// each render event, in order, the `k`-th of them `k` steps into the
/// animation.
pub open spec fn frames_after(tile_size: u32, phase: u64, events: Seq<Event>) -> Seq<FrameView> {
    let viewports = viewports_of(events);
    Seq::new(
        viewports.len(),
        |k: int| frame_of(viewports[k], tile_size, (phase + k * ANIMATION_STEP) as u64),
    )
}

/// Whether a game in state `game` can take `event`: a render event needs a
/// tile size to divide by, and room for the phase to advance.
pub open spec fn can_handle(game: GameView, event: Event) -> bool {
    event is Render ==> game.config.tile_size > 0 && game.phase + ANIMATION_STEP <= u64::MAX
}

/// Whether a game in state `game` can take all of `events`.
pub open spec fn can_run(game: GameView, events: Seq<Event>) -> bool {
    viewports_of(events).len() > 0 ==> game.config.tile_size > 0 && phase_after(
        game.phase,
        events,
    ) <= u64::MAX
}

/// The frames of a list, each as a mathematical value.
pub open spec fn views(frames: Seq<Frame>) -> Seq<FrameView> {
    frames.map_values(|frame: Frame| frame@)
}

/// What the `n + 1` first events add to the `n` first.
pub proof fn lemma_viewports_step(events: Seq<Event>, n: int)
    requires
        0 <= n < events.len(),
    ensures
        viewports_of(events.take(n + 1)) == match events[n] {
            Event::Render(viewport) => viewports_of(events.take(n)).push(viewport),
            _ => viewports_of(events.take(n)),
        },
{
    assert(events.take(n + 1).drop_last() =~= events.take(n));
}

/// A stretch of events holds at least the render events of its beginning.
pub proof fn lemma_viewports_prefix(events: Seq<Event>, n: int)
    requires
        0 <= n <= events.len(),
    ensures
        viewports_of(events.take(n)).len() <= viewports_of(events).len(),
    decreases events.len() - n,
{
    if n == events.len() {
        assert(events.take(n) =~= events);
    } else {
        lemma_viewports_step(events, n);
        lemma_viewports_prefix(events, n + 1);
    }
}

/// Seeing one more event is one more call of [`Game::on_event`]: a render
/// event adds the frame for its viewport at the phase reached so far and moves
/// the phase one step on, any other event adds nothing and moves nothing. A
/// game that has seen no event has rendered no frame and is at the phase it
/// started with.
pub proof fn law_run_is_stepwise(tile_size: u32, phase: u64, events: Seq<Event>, event: Event)
    requires
        phase_after(phase, events) <= u64::MAX,
    ensures
        phase_after(phase, Seq::<Event>::empty()) == phase,
        frames_after(tile_size, phase, Seq::<Event>::empty()) == Seq::<FrameView>::empty(),
        match event {
            Event::Render(viewport) => {
                &&& phase_after(phase, events.push(event)) == phase_after(phase, events)
                    + ANIMATION_STEP
                &&& frames_after(tile_size, phase, events.push(event)) == frames_after(
                    tile_size,
                    phase,
                    events,
                ).push(frame_of(viewport, tile_size, phase_after(phase, events) as u64))
            },
            _ => {
                &&& phase_after(phase, events.push(event)) == phase_after(phase, events)
                &&& frames_after(tile_size, phase, events.push(event)) == frames_after(
                    tile_size,
                    phase,
                    events,
                )
            },
        },
{
    assert(events.push(event).drop_last() =~= events);
    assert(frames_after(tile_size, phase, Seq::<Event>::empty()) =~= Seq::<FrameView>::empty());
    match event {
        Event::Render(viewport) => {
            assert(frames_after(tile_size, phase, events.push(event)) =~= frames_after(
                tile_size,
                phase,
                events,
            ).push(frame_of(viewport, tile_size, phase_after(phase, events) as u64)));
        },
        _ => {},
    }
}

/// The phase never goes back: over a run it is at least what it was at any
/// earlier point of the run, and it is larger as soon as a render event lies
/// in between.
pub proof fn law_phase_is_monotonic(phase: u64, events: Seq<Event>, earlier: int, later: int)
    requires
        0 <= earlier <= later <= events.len(),
    ensures
        phase <= phase_after(phase, events.take(earlier)) <= phase_after(
            phase,
            events.take(later),
        ),
        forall|k: int|
            earlier <= k < later && events[k] is Render ==> phase_after(
                phase,
                events.take(earlier),
            ) < phase_after(phase, events.take(later)),
    decreases later - earlier,
{
    if earlier < later {
        law_phase_is_monotonic(phase, events, earlier, later - 1);
        lemma_viewports_step(events, later - 1);
    }
}

impl Game {
    /// Makes a game from its configuration, with the animation at its start.
    /// The configuration is stored as it is, not judged.
    pub fn new(config: GameConfig) -> (game: Game)
        ensures
            game@.config == config,
            game@.phase == 0,
    {
        Game { config, phase: 0 }
    }

    /// The window to ask for: title and size as configured, windowed, closing
    /// on the escape key, without anti-aliasing.
    pub fn window(&self) -> (settings: WindowSettings)
        ensures
            settings.title@ == self@.config.title@,
            settings.width == self@.config.window_width,
            settings.height == self@.config.window_height,
            !settings.fullscreen,
            settings.exit_on_esc,
            settings.samples == 0,
    {
        WindowSettings {
            title: self.config.title.clone(),
            width: self.config.window_width,
            height: self.config.window_height,
            fullscreen: false,
            exit_on_esc: true,
            samples: 0,
        }
    }

    /// The pacing to subscribe to the event source with, as configured.
    pub fn event_settings(&self) -> (settings: EventSettings)
        ensures
            settings.updates_per_second == self@.config.updates_per_second,
            settings.max_frames_per_second == self@.config.max_frames_per_second,
    {
        EventSettings {
            updates_per_second: self.config.updates_per_second,
            max_frames_per_second: self.config.max_frames_per_second,
        }
    }

    /// Renders the frame for `viewport` at the current phase. The phase stays
    /// where it is: advancing it is the business of [`Game::on_event`].
    pub fn render(&self, viewport: Viewport) -> (frame: Frame)
        requires
            self@.config.tile_size > 0,
        ensures
            frame@ == frame_of(viewport, self@.config.tile_size, self@.phase),
    {
        render(viewport, self.config.tile_size, self.phase)
    }

    /// Takes one event. A render event yields the frame for its viewport at
    /// the current phase and then moves the phase one step on. Every other
    /// event yields nothing and leaves the game as it was.
    pub fn on_event(&mut self, event: Event) -> (drawn: Option<Frame>)
        requires
            can_handle(old(self)@, event),
        ensures
            final(self)@.config == old(self)@.config,
            match event {
                Event::Render(viewport) => {
                    &&& final(self)@.phase == old(self)@.phase + ANIMATION_STEP
                    &&& drawn matches Some(frame)
                    &&& frame@ == frame_of(viewport, old(self)@.config.tile_size, old(self)@.phase)
                },
                _ => {
                    &&& final(self)@.phase == old(self)@.phase
                    &&& drawn is None
                },
            },
    {
        match event {
            Event::Render(viewport) => {
                let frame = self.render(viewport);
                self.phase = self.phase + ANIMATION_STEP;
                Some(frame)
            },
            _ => None,
        }
    }

    /// Takes a stretch of events, first to last, and returns the frames
    /// rendered on the way: the loop over a recorded event stream.
    pub fn run(&mut self, events: &[Event]) -> (frames: Vec<Frame>)
        requires
            can_run(old(self)@, events@),
        ensures
            final(self)@.config == old(self)@.config,
            final(self)@.phase == phase_after(old(self)@.phase, events@),
            views(frames@) == frames_after(
                old(self)@.config.tile_size,
                old(self)@.phase,
                events@,
            ),
    {
        let ghost start = self@;
        let mut frames: Vec<Frame> = Vec::new();
        let mut n: usize = 0;
        assert(events@.take(0) =~= Seq::<Event>::empty());
        assert(views(frames@) =~= frames_after(start.config.tile_size, start.phase, events@.take(0)));
        while n < events.len()
            invariant
                n <= events@.len(),
                can_run(start, events@),
                self@.config == start.config,
                self@.phase == phase_after(start.phase, events@.take(n as int)),
                views(frames@) == frames_after(
                    start.config.tile_size,
                    start.phase,
                    events@.take(n as int),
                ),
            decreases events@.len() - n,
        {
            let event = events[n];
            proof {
                lemma_viewports_step(events@, n as int);
                lemma_viewports_prefix(events@, n + 1);
            }
            let ghost before = frames@;
            match self.on_event(event) {
                Some(frame) => {
                    frames.push(frame);
                    assert(views(frames@) =~= views(before).push(frame@));
                    assert(views(frames@) =~= frames_after(
                        start.config.tile_size,
                        start.phase,
                        events@.take(n + 1),
                    ));
                },
                None => {},
            }
            n += 1;
        }
        assert(events@.take(n as int) =~= events@);
        frames
    }

    /// The configuration the game was made with.
    pub fn config(&self) -> (config: &GameConfig)
        ensures
            *config == self@.config,
    {
        &self.config
    }

    /// How far the animation has come.
    pub fn phase(&self) -> (phase: u64)
        ensures
            phase == self@.phase,
    {
        self.phase
    }
}

} // verus!
