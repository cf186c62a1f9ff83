//! Long-running use cases: infrastructure for tasks that outlive the
//! request that started them and are addressed later through a registry.

pub mod long_run;
