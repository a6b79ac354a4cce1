# sompcoc

SompCoc Rises is a Discord clicker game: players recruit members for their
society by shilling (`/shill`), spend members on advertisements that earn
more members every second (`/shop browse`, `/shop buy`), check their card
(`/membership`) and compare themselves with everyone else (`/leaderboard`).

- `src/` is the game itself, verified with Verus: the item catalogue and its
  prices, income and shilling factors, lazily accrued balances, purchases,
  shilling with its cooldown, the ranked and paged leaderboard, and every
  message text. Arbitrary-precision arithmetic is done by `num-bigint`,
  number formatting by `num-format`, randomness by `rand`; `src/laws.rs`
  states the properties that span several operations.
- `app/` is the bot around it: configuration, the `kv` store, and the
  `poise`/`serenity` commands that load a player, call the library, reply
  and save.
- `tests/` runs the library on concrete values.
