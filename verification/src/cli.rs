//! The options of the command line.

use vstd::prelude::*;

verus! {

/// The options of the command line. There is one: whether to give every
/// device the same plain colour in place of a random one.
#[derive(Clone, Copy, Debug, PartialEq, Eq, Structural)]
pub struct Args {
    /// Avoid randomizing the colours of devices.
    pub no_color_devices: bool,
}

impl Default for Args {
    /// The options of a command line that names none: colours are random.
    fn default() -> (args: Self)
        ensures
            !args.no_color_devices,
    {
        Args { no_color_devices: false }
    }
}

impl Args {
    /// Whether new devices get random colours: they do unless the option
    /// says otherwise.
    pub fn randomize_graph_colors(&self) -> (randomize: bool)
        ensures
            randomize == !self.no_color_devices,
    {
        !self.no_color_devices
    }
}

} // verus!
