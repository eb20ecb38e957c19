# mplus_leaderboard

Collects the Mythic+ leaderboards of a Battle.net region for one period and
writes one CSV row per leading group (region, dungeon, time, keystone level,
faction, tank, healer, and a counter per damage-dealer specialization).

- `src/` is the verified library (Verus):
  - `text`: decimal rendering and parsing of unsigned numbers, text equality,
    Unicode upper-casing;
  - `model`: regions, dungeons, factions, specializations and their roles;
  - `json`: the API documents as plain values;
  - `row`: the CSV row of a group and how members fill it;
  - `links`: realm identifiers and leaderboard coordinates read from links;
  - `query`: document paths, request URLs, headers and request spacing;
  - `report`: the output file's name;
  - `error`: the library's failures.
- `app/` is the program: HTTP requests (curl), JSON decoding (serde_json),
  CSV output, logging and configuration.
- `tests/` runs the library on concrete data.
