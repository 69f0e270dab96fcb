//! Input preprocessing core for an editor: normalizes a raw, possibly
//! incoherent stream of keyboard/mouse events into canonical key and mouse
//! state, and translates key transitions into semantic editor actions.

pub mod events;
pub mod keys;
pub mod laws;
pub mod mapper;
pub mod normalizer;
pub mod preprocessor;
pub mod tracker;
pub mod translator;

pub use events::Event;
pub use events::Mode;
pub use events::MouseButton;
pub use events::MouseState;
pub use keys::Key;
pub use keys::ModifierSet;
pub use mapper::DocumentPoint;
pub use mapper::ViewportTransform;
pub use mapper::to_document_space;
pub use normalizer::NormalizeDecision;
pub use normalizer::NormalizedEvent;
pub use preprocessor::InputPreprocessor;
pub use preprocessor::PreprocessorState;
pub use tracker::KeyState;
pub use tracker::KeyStateTracker;
pub use translator::KeyTranslationTable;
pub use translator::TableEntry;
pub use translator::VirtualInputAction;
pub use translator::translate;
