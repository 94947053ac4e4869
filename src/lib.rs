//! Decoding of dtype-tagged binary signal payloads and their preparation for
//! two-dimensional plotting.
pub mod decode;
pub mod catalog;
pub mod envelope;
pub mod session;
pub mod text;

pub use decode::{ByteOrder, DecodeError, ElementType, Sample};
pub use envelope::{
    prepare_plot_data, Dimension, EncodedBlob, Metadata, PlotError, SignalEnvelope,
};
pub use catalog::{signal_resource_name, Catalog, ParseError};
pub use session::{Session, SessionAction, SessionEvent};
