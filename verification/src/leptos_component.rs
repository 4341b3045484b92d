//! Embedding a simulation in the reactive side.

use crate::channel::Disconnected;
use crate::messages::{message_l2b, LeptosChannelMessageSender, LeptosMessageSender};
use crate::plugin::{LeptosBevyCanvasCleanup, LeptosBevyCanvasPlugin};
use vstd::prelude::*;
use vstd::string::*;

verus! {

/// What the embedding site keeps of an embedded simulation: the id of the
/// canvas it renders to and the sending end of the teardown channel.
pub struct Canvas {
    canvas_id: String,
    shutdown_canvas: LeptosMessageSender<LeptosBevyCanvasCleanup>,
}

impl Canvas {
    pub closed spec fn id(&self) -> Seq<char> {
        self.canvas_id@
    }

    pub fn canvas_id(&self) -> (id: &String)
        ensures
            id@ == self.id(),
    {
        &self.canvas_id
    }

    /// Disposal of the embedding site: sends the teardown sentinel. The
    /// handle is used up, so the sentinel is sent once.
    pub fn on_cleanup(self) -> (sent: Result<(), Disconnected<LeptosBevyCanvasCleanup>>) {
        self.shutdown_canvas.send(LeptosBevyCanvasCleanup)
    }
}

/// The canvas id of an embedding that names none.
pub open spec fn default_canvas_id() -> Seq<char> {
    "bevy_canvas"@
}

/// Embeds a simulation: opens its teardown channel and returns what the
/// embedding site keeps together with what is installed in the simulation.
/// The canvas is `canvas_id`, or `bevy_canvas` if none is given.
#[allow(non_snake_case)]
pub fn BevyCanvas(canvas_id: Option<String>) -> (embedded: (Canvas, LeptosBevyCanvasPlugin))
    ensures
        embedded.0.id() == match canvas_id {
            Some(id) => id@,
            None => default_canvas_id(),
        },
{
    let (shutdown_canvas, set_shutdown_canvas) = message_l2b::<LeptosBevyCanvasCleanup>();
    let canvas_id = match canvas_id {
        Some(id) => id,
        None => "bevy_canvas".to_string(),
    };
    (Canvas { canvas_id, shutdown_canvas }, LeptosBevyCanvasPlugin::new(set_shutdown_canvas))
}

} // verus!
