//! The catalog of stateful signals built on the execution contract.

pub mod bollinger_bands;
pub mod exponential_moving_average;
pub mod maximum_period;
pub mod minimum_period;
pub mod moving_average_convergence_divergence;
pub mod relative_strength_index;
pub mod simple_moving_average;
pub mod stochastic_momentum_oscillator;
pub mod wilders_smoothing;

pub use bollinger_bands::BollingerBands;
pub use exponential_moving_average::ExponentialMovingAverage;
pub use maximum_period::MaximumPeriod;
pub use minimum_period::MinimumPeriod;
pub use moving_average_convergence_divergence::MovingAverageConvergenceDivergence;
pub use relative_strength_index::RelativeStrengthIndex;
pub use simple_moving_average::SimpleMovingAverage;
pub use stochastic_momentum_oscillator::StochasticMomentumOscillator;
pub use wilders_smoothing::WildersSmoothing;
