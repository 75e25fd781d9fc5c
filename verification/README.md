# nautilus_alpaca

Decision logic of a trading adapter for the Alpaca API (US equities), written in Verus and
proved against its contracts.

## Layout

- `src/common`: venue vocabulary and its mapping to the engine's (sides, order types, time in
  force, statuses, feeds), exact decimals, Reg NMS Rule 612 price increments, trading sessions
  and the SIP/overnight feed switch, instrument metadata, credentials and URLs.
- `src/http`: request routing and retry rules, error classification, venue models, query
  parameters, paging cursors, and the conversion of venue payloads into order, fill and position
  reports.
- `src/websocket`: trading stream messages and the authorisation/subscription handshake.
- `src/data`: bar subscriptions, watermarks that keep a rolling poll window from republishing a
  bar, request grouping by timeframe, poll windows and the calendar window.
- `src/execution`: the replacement chain that follows amended orders, order submission checks as
  a state machine, trading stream supervision, update handling and report listings.
- `src/provider`: which assets an instrument load keeps, their parsing, and the instrument cache.
- `app/`: what stays outside verification: environment access, JSON decoding and encoding, and
  the texts of errors.
