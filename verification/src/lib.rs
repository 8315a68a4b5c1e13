//! A pollable stream-transformation library: pipelines of stages that
//! can be fed input incrementally, polled for output incrementally,
//! and asked — without consuming anything — whether they will ever
//! produce more.  End of input is a one-way signal that propagates
//! through a stage so that buffered state is flushed exactly once
//! before the stage reports its own completion.
//!
//! The heart is [`pollable_iterator::PollableIterator`], the
//! completion-aware sequence contract, together with
//! [`pollable_queue::PollableQueue`] (a closable FIFO sink+source) and
//! [`pollable_iterator::Transform`] (a stage driving a
//! [`pollable_iterator::StatefulMap`] over a source).  Every operation
//! carries a contract over the mathematical stage model in
//! [`stage_model`], where the general laws — permanence of exhaustion,
//! idempotent close, order preservation, full drainage after close —
//! are stated and proved.

pub mod extractor;
pub mod from_context_fn;
pub mod pollable_iterator;
pub mod pollable_queue;
pub mod stage_model;
pub mod symmetric_as_ref;
pub mod verbose_logging;

pub use extractor::Extractor;
pub use from_context_fn::{ContextFn, FromContextFn};
pub use pollable_iterator::{
    PassThrough, PollableIterator, PollableTransformer, StatefulMap, Transform,
};
pub use pollable_queue::PollableQueue;
pub use symmetric_as_ref::{SymmetricAsMut, SymmetricAsRef};
pub use verbose_logging::VerboseLoggingBackend;
