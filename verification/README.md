# bn_bookticker

Collects the best bid and ask of Binance pairs into a shared quote book and
audits how recent each quote is.

- `src/` is the verified library:
  - `stream`: stream names of pairs and book-ticker stream addresses;
  - `market`: exchange-information replies, the markets open for trading and
    their symbols, and which HTTP replies carry data;
  - `ticker`: stream messages and the quote records made from them;
  - `book`: the shared quote books, storing quotes, and the freshness audit;
  - `session`: what a stream session does on each socket frame and what the
    book writer does on each channel event.
- `app/` is the program around it: HTTP and WebSocket I/O, JSON decoding,
  task spawning and logging.
- `tests/` runs the library on concrete inputs.
