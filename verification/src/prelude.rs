//! Core functionality of the crate

pub use crate::assets::{BevyYarnMetadataTable, BevyYarnProgram, BevyYarnStringTable};
pub use crate::commands::{BevyYarnCommand, CommandHandlers};
pub use crate::data::{BevyYarnChoice, BevyYarnLine, Line, YarnData};
pub use crate::events::{BevyYarnEvent, BevyYarnStepDialogueEvent};
pub use crate::vm::{SuspendReason, VmError, YarnOption};
pub use crate::{BevyYarnDialogueEngine, StepOutcome, YarnPlugin};
