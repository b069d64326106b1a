//! Control of the power profiles, fans, thermal sensors and keyboard lighting
//! of a family of gaming laptops: model detection and per-model capabilities,
//! the privileged ACPI gateway, and the lighting controller's protocol with
//! the lighting programs built on it.
use vstd::prelude::*;

pub mod acpi;
pub mod elc;
pub mod elc_constants;
pub mod hid_report;
pub mod keyboard;
pub mod model;
pub mod status;
pub mod text;

pub use acpi::AcpiController;
pub use keyboard::KeyboardController;
pub use model::LaptopModel;

verus! {

} // verus!
