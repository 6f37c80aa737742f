use vstd::prelude::*;

verus! {

/// The database engines dbnest knows about.
#[derive(Clone, Copy, Debug, PartialEq, Eq, Structural)]
pub enum Engine {
    Sqlite,
    Postgres,
    Mysql,
}

/// The lowercase name of an engine, as it appears in output and in JSON.
pub open spec fn engine_name(e: Engine) -> Seq<char> {
    match e {
        Engine::Sqlite => "sqlite"@,
        Engine::Postgres => "postgres"@,
        Engine::Mysql => "mysql"@,
    }
}

impl Engine {
    /// The engine's lowercase name.
    pub fn as_str(&self) -> (r: &'static str)
        ensures
            r@ == engine_name(*self),
    {
        match self {
            Engine::Sqlite => "sqlite",
            Engine::Postgres => "postgres",
            Engine::Mysql => "mysql",
        }
    }
}

} // verus!
