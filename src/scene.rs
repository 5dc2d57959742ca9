use vstd::prelude::*;
use crate::input::Input;
use crate::level0::{level0_step, picture, Level0, Level0State};
use crate::level1::{level1_picture, level2_picture, Level1, Level2};
use crate::render::{views, DrawCommand, DrawOp};

verus! {

/// What a scene asks of the scene manager after a frame.
#[derive(Clone, Copy, PartialEq, Eq, Structural, Debug)]
pub enum SceneResult {
    /// Keep running this scene.
    OnGoing,
    /// Stop the game.
    Finished,
    /// Switch to the scene at this index.
    Transition(usize),
}

/// One of the game's screens.
pub enum Scene {
    Level0(Level0),
    Level1(Level1),
    Level2(Level2),
}

/// A `Scene` as the contracts see it.
pub enum SceneView {
    Level0(Level0State),
    Level1,
    Level2,
}

impl View for Scene {
    type V = SceneView;

    open spec fn view(&self) -> SceneView {
        match self {
            Scene::Level0(l) => SceneView::Level0(l@),
            Scene::Level1(_) => SceneView::Level1,
            Scene::Level2(_) => SceneView::Level2,
        }
    }
}

impl SceneView {
    pub open spec fn wf(self) -> bool {
        match self {
            SceneView::Level0(s) => s.wf(),
            _ => true,
        }
    }

    /// The scene after one frame on `input`.
    pub open spec fn step(self, input: Input, dt: int) -> SceneView {
        match self {
            SceneView::Level0(s) => SceneView::Level0(level0_step(s, input, dt)),
            _ => self,
        }
    }

    /// The frame the scene describes.
    pub open spec fn picture(self) -> Seq<DrawOp> {
        match self {
            SceneView::Level0(s) => picture(s),
            SceneView::Level1 => level1_picture(),
            SceneView::Level2 => level2_picture(),
        }
    }
}

impl Scene {
    /// Runs one frame of the scene: its update, then its drawing. Every
    /// scene of the game asks to go on.
    pub fn frame(&mut self, input: &Input, delta_time: u32) -> (r: (SceneResult, Vec<DrawCommand>))
        requires
            old(self)@.wf(),
        ensures
            final(self)@ == old(self)@.step(*input, delta_time as int),
            final(self)@.wf(),
            r.0 == SceneResult::OnGoing,
            views(r.1@) == final(self)@.picture(),
    {
        match self {
            Scene::Level0(l) => l.frame(input, delta_time),
            Scene::Level1(l) => l.frame(),
            Scene::Level2(l) => l.frame(),
        }
    }
}

pub open spec fn all_wf(scenes: Seq<SceneView>) -> bool {
    forall|i: int| 0 <= i < scenes.len() ==> (#[trigger] scenes[i]).wf()
}

/// Holds the game's scenes in order and runs the current one.
///
/// Switching scenes with `set` does not start the scene anew: a scene keeps
/// its state across switches, and starts a round itself when the player asks.
pub struct SceneManager {
    scenes: Vec<Scene>,
    current: usize,
}

impl SceneManager {
    pub closed spec fn scenes(&self) -> Seq<SceneView> {
        self.scenes@.map_values(|s: Scene| s@)
    }

    pub closed spec fn current(&self) -> nat {
        self.current as nat
    }

    pub closed spec fn wf(&self) -> bool {
        all_wf(self.scenes())
    }

    pub fn new() -> (r: Self)
        ensures
            r.scenes() == Seq::<SceneView>::empty(),
            r.current() == 0,
            r.wf(),
    {
        let r = SceneManager { scenes: Vec::new(), current: 0 };
        assert(r.scenes() =~= Seq::<SceneView>::empty());
        r
    }

    /// Appends a scene.
    pub fn add(&mut self, scene: Scene)
        requires
            old(self).wf(),
            scene@.wf(),
        ensures
            final(self).scenes() == old(self).scenes().push(scene@),
            final(self).current() == old(self).current(),
            final(self).wf(),
    {
        let ghost v = scene@;
        self.scenes.push(scene);
        assert(self.scenes() =~= old(self).scenes().push(v));
    }

    /// Makes the scene at `index` the current one, if there is one there;
    /// returns whether it did. The scene is not started anew.
    pub fn set(&mut self, index: usize) -> (r: bool)
        ensures
            r == (index < old(self).scenes().len()),
            final(self).scenes() == old(self).scenes(),
            final(self).current() == if r { index as nat } else { old(self).current() },
            final(self).wf() == old(self).wf(),
    {
        if index < self.scenes.len() {
            self.current = index;
            true
        } else {
            false
        }
    }

    /// Runs one frame of the current scene and follows what it asks: to go
    /// on, to stop, or to switch to another scene. Returns whether the game
    /// goes on, with the frame to draw. With no current scene the game stops.
    pub fn frame(&mut self, input: &Input, delta_time: u32) -> (r: (bool, Vec<DrawCommand>))
        requires
            old(self).wf(),
        ensures
            final(self).wf(),
            old(self).current() < old(self).scenes().len() ==> {
                let i = old(self).current() as int;
                let stepped = old(self).scenes()[i].step(*input, delta_time as int);
                &&& final(self).scenes() == old(self).scenes().update(i, stepped)
                &&& final(self).current() == old(self).current()
                &&& r.0
                &&& views(r.1@) == stepped.picture()
            },
            old(self).current() >= old(self).scenes().len() ==> {
                &&& final(self).scenes() == old(self).scenes()
                &&& final(self).current() == old(self).current()
                &&& !r.0
                &&& r.1@.len() == 0
            },
    {
        if self.current >= self.scenes.len() {
            return (false, Vec::new());
        }
        let i = self.current;
        let ghost before = self.scenes();
        assert(before[i as int] == self.scenes@[i as int]@);
        let (result, cmds) = self.scenes[i].frame(input, delta_time);
        assert(self.scenes() =~= before.update(i as int, self.scenes@[i as int]@));
        let go_on = match result {
            SceneResult::OnGoing => true,
            SceneResult::Finished => false,
            SceneResult::Transition(next) => {
                self.set(next);
                true
            },
        };
        (go_on, cmds)
    }
}

} // verus!
