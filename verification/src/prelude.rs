pub use crate::common::{Endpoint, Side, Symbol, API};
pub use crate::enums::Topic;
pub use crate::orderbook::{Limit, OrderBook};
pub use crate::record::Record;
pub use crate::rest::{Rest, RestBuilder};
pub use crate::websocket::{WebSocket, WebSocketBuilder, WebSocketResponse};
