pub mod addition;
pub mod inverse;
pub mod log;
pub mod multiplication;
pub mod negation;
pub mod power;
pub mod variable;

pub use self::addition::Addition;
pub use self::inverse::Inverse;
pub use self::log::Log;
pub use self::multiplication::Multiplication;
pub use self::negation::Negation;
pub use self::power::Power;
pub use self::variable::Variable;
