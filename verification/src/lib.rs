//! Core logic of a twenty-question Likert assessment form: per-question
//! scores, their summed total, a four-bucket interpretation of the total,
//! the color and circular-arc geometry used to visualize it, the eased
//! animation of the displayed score, and the text of the exported report.

pub mod anim;
pub mod digits;
pub mod model;
pub mod report;
pub mod state;
pub mod visual;
