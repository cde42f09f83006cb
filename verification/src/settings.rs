//! The fixed settings the server starts with.

use vstd::prelude::*;

verus! {

/// The environment variable that holds the database connection string.
pub const CONNECTION_VARIABLE: &'static str = "MONGO_URI";

/// The name under which the gateway presents itself to the database.
pub const APP_NAME: &'static str = "Titanico Instance";

/// Fewest connections the pool keeps open.
pub const MIN_POOL_SIZE: u32 = 10;

/// Most connections the pool opens.
pub const MAX_POOL_SIZE: u32 = 500;

/// The address the listener binds.
pub const LISTEN_HOST: &'static str = "127.0.0.1";

/// The port the listener binds.
pub const LISTEN_PORT: u16 = 8080;

/// The one route, which takes commands by POST.
pub const COMMAND_ROUTE: &'static str = "/command";

} // verus!
