//! The game's top-level scenes and how a frame's input moves between them:
//! the attract screen, play, pause, and game over. The presentation layer
//! runs the clock and the ticks; this decides the scene.
use vstd::prelude::*;

verus! {

/// The top-level game scene.
#[derive(Clone, Copy, PartialEq, Eq, Structural, Debug)]
pub enum Scene {
    Attract,
    Playing,
    Paused,
    GameOver,
}

/// What a frame decides: the next scene, whether a fresh game begins, and
/// whether a latched drop press is discarded (a press that starts or resumes
/// play is not a drop).
#[derive(Clone, Copy, PartialEq, Eq, Structural, Debug)]
pub struct SceneStep {
    pub scene: Scene,
    pub begin: bool,
    pub clear_drop: bool,
}

/// The scene after a frame in `scene`, where `confirm` is a confirming
/// press, `exit` an exit press, and `over` whether the game ended during the
/// frame's ticks.
pub open spec fn scene_step_spec(scene: Scene, confirm: bool, exit: bool, over: bool) -> SceneStep {
    match scene {
        Scene::Attract => if confirm {
            SceneStep { scene: Scene::Playing, begin: true, clear_drop: true }
        } else {
            SceneStep { scene: Scene::Attract, begin: false, clear_drop: false }
        },
        Scene::Playing => if over {
            SceneStep { scene: Scene::GameOver, begin: false, clear_drop: false }
        } else if exit {
            SceneStep { scene: Scene::Paused, begin: false, clear_drop: false }
        } else {
            SceneStep { scene: Scene::Playing, begin: false, clear_drop: false }
        },
        Scene::Paused => if confirm {
            SceneStep { scene: Scene::Playing, begin: false, clear_drop: true }
        } else if exit {
            SceneStep { scene: Scene::Attract, begin: false, clear_drop: false }
        } else {
            SceneStep { scene: Scene::Paused, begin: false, clear_drop: false }
        },
        Scene::GameOver => if confirm {
            SceneStep { scene: Scene::Playing, begin: true, clear_drop: true }
        } else {
            SceneStep { scene: Scene::GameOver, begin: false, clear_drop: false }
        },
    }
}

impl Scene {
    /// Decide the next scene for one frame.
    pub fn step(self, confirm: bool, exit: bool, over: bool) -> (s: SceneStep)
        ensures
            s == scene_step_spec(self, confirm, exit, over),
    {
        match self {
            Scene::Attract => if confirm {
                SceneStep { scene: Scene::Playing, begin: true, clear_drop: true }
            } else {
                SceneStep { scene: Scene::Attract, begin: false, clear_drop: false }
            },
            Scene::Playing => if over {
                SceneStep { scene: Scene::GameOver, begin: false, clear_drop: false }
            } else if exit {
                SceneStep { scene: Scene::Paused, begin: false, clear_drop: false }
            } else {
                SceneStep { scene: Scene::Playing, begin: false, clear_drop: false }
            },
            Scene::Paused => if confirm {
                SceneStep { scene: Scene::Playing, begin: false, clear_drop: true }
            } else if exit {
                SceneStep { scene: Scene::Attract, begin: false, clear_drop: false }
            } else {
                SceneStep { scene: Scene::Paused, begin: false, clear_drop: false }
            },
            Scene::GameOver => if confirm {
                SceneStep { scene: Scene::Playing, begin: true, clear_drop: true }
            } else {
                SceneStep { scene: Scene::GameOver, begin: false, clear_drop: false }
            },
        }
    }

    /// Whether the simulation's game ticks run in this scene (time stands
    /// still while paused or on the game-over board).
    pub fn plays(self) -> (b: bool)
        ensures
            b == (self == Scene::Playing),
    {
        match self {
            Scene::Playing => true,
            _ => false,
        }
    }

    /// Whether the copter drone should sound in this scene.
    pub fn drone_on(self) -> (b: bool)
        ensures
            b == (self == Scene::Playing),
    {
        self.plays()
    }
}

/// A new game begins only from the attract or game-over screen; play is
/// entered only on a confirming press, and left for the game-over board only
/// when the game ended.
pub proof fn lemma_scene_flow(scene: Scene, confirm: bool, exit: bool, over: bool)
    ensures
        ({
            let s = scene_step_spec(scene, confirm, exit, over);
            &&& s.begin ==> confirm && (scene == Scene::Attract || scene == Scene::GameOver)
            &&& (s.scene == Scene::Playing && scene != Scene::Playing) ==> confirm && s.clear_drop
            &&& (s.scene == Scene::GameOver && scene != Scene::GameOver) ==> over
        }),
{
}

/// In play only an exit press pauses and only the game ending leaves for the
/// game-over board: a confirming press (a drop) never changes the scene
/// from play, and play starts no new game. The paused scene is reached only
/// by an exit press during play (or kept by pressing nothing).
pub proof fn lemma_play_pauses_only_on_exit(confirm: bool, exit: bool, over: bool, scene: Scene)
    ensures
        scene_step_spec(Scene::Playing, confirm, exit, over).scene == if over {
            Scene::GameOver
        } else if exit {
            Scene::Paused
        } else {
            Scene::Playing
        },
        scene_step_spec(Scene::Playing, true, exit, over) == scene_step_spec(
            Scene::Playing,
            false,
            exit,
            over,
        ),
        !scene_step_spec(Scene::Playing, confirm, exit, over).begin,
        scene_step_spec(scene, confirm, exit, over).scene == Scene::Paused ==> (scene
            == Scene::Playing && exit && !over) || (scene == Scene::Paused && !confirm && !exit),
{
}

} // verus!
