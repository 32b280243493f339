//! `tc` command construction: a general builder over qdisc kinds and the
//! ready-made templates built on it.
pub mod builder;
pub mod templates;

pub use builder::{
    BuildError, HtbParams, NetemParams, PrioParams, QdiscParams, QdiscType, RedParams, SfqParams,
    TbfParams, TcCommand, TcCommandBuilder, TcOperation, TcTarget,
};
