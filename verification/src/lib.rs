//! Can a student afford to finance college with a loan?
//!
//! Given tuition, a salary, an interest rate and a cost of living, the
//! library projects the total tuition, estimates monthly take-home pay,
//! prices a fixed-rate, fully amortizing loan over a list of terms, and
//! grades the outcome.  Every function is a pure function of its arguments.
//!
//! All amounts, rates and percentages are decimal fixed-point numbers with
//! nine decimal places; see [`fixed`].
pub mod affordability;
pub mod amortization;
pub mod fixed;
pub mod takehome;
pub mod tuition;
