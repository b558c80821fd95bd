# ws_core

The core of a WebSocket chat and notification service running on AWS Lambda
with DynamoDB, written in Verus.

- `src/` is the verified library: error classification and replies, the keys
  and records that are stored (chat messages, connections, subscriptions,
  notifications), the queries that are asked and how their answers are read,
  and, under `src/flows/`, the decision flows of every request handler as
  state machines that name the next operation to perform. Each flow comes
  with the laws of its runs (for instance, only members are subscribed, and
  a notification event reaches its recipients in order).
- `tests/` runs the library on concrete values.
- `app/` performs the I/O: DynamoDB requests, pushes through the API Gateway
  management API, JSON forms of the library's types, and the Lambda handlers
  that drive the flows.
