//! The naming templates, one module for each family of products.

pub mod bearings;
pub mod cable_holders;
pub mod latches;
pub mod nuts;
pub mod pins;
pub mod pulleys;
pub mod screws;
pub mod spacers;
pub mod standoffs;
pub mod washers;

pub use bearings::initialize_bearing_templates;
pub use cable_holders::initialize_cable_holder_templates;
pub use latches::initialize_latch_templates;
pub use nuts::initialize_nut_templates;
pub use pins::initialize_pin_templates;
pub use pulleys::initialize_pulley_templates;
pub use screws::initialize_screw_templates;
pub use spacers::initialize_spacer_templates;
pub use standoffs::initialize_standoff_templates;
pub use washers::initialize_washer_templates;
