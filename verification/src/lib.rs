//! A console log sink for command-line applications, configurable at run
//! time.
//!
//! The sink derives a maximum-severity threshold from a quiet flag and a
//! verbosity knob, hands that threshold to the `log` facade whenever the
//! configuration changes, and renders the records the facade accepts as
//! single lines with level-colored prefixes for standard error.

mod level;
mod render;
mod sink;

pub use level::Level;
pub use level::Threshold;
pub use level::level_num;
pub use level::threshold_num;
pub use level::admits;
pub use level::spec_threshold;
pub use level::threshold;
pub use level::lemma_threshold_of_verbosity;
pub use level::lemma_quiet_overrides;
pub use level::lemma_default_threshold_filters;
pub use render::Color;
pub use render::color_code;
pub use render::painted;
pub use render::level_name;
pub use render::level_color;
pub use render::rendered_line;
pub use render::level_name_str;
pub use render::level_color_of;
pub use render::format_record;
pub use sink::AlreadyInitializedError;
pub use sink::SinkView;
pub use sink::ConsoleSink;
pub use sink::set_quiet_transition;
pub use sink::set_verbosity_transition;
pub use sink::init_transition;
pub use sink::synced;
pub use sink::initial_sink;
pub use sink::update_max_level;
pub use sink::lemma_set_verbosity_idempotent;
pub use sink::lemma_verbosity_round_trip;
pub use sink::lemma_quiet_round_trip;
pub use sink::lemma_init_exactly_once;
pub use sink::lemma_changes_publish_synchronously;
