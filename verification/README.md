# waybar_nzquake

A Waybar custom module that shows recent New Zealand earthquakes from the
GeoNet API, with its rules verified in Verus.

- `src/` — the verified library:
  - `domain::types` — whole-number range validation (`RangeValidated`,
    `Mmi`), compass directions, day bands, quake quality, quake timestamps
    (parsed by the `time` crate).
  - `domain::models` — the retention rules: which quakes a batch keeps and
    the order they are shown in, with the laws that the order is unique and
    that filtering again changes nothing.
  - `domain::error` — the domain error and its message.
  - `infra::api::models` — GeoNet wire rules (the MMI not-felt sentinel,
    deleted features).
  - `infra::display` — the bar text, the tooltip, and date-time text.
  - `location` — splitting the `latitude,longitude` argument.
  - `text` — decimal rendering of whole numbers.
- `app/` — the program: HTTP fetch (`ureq`), JSON (`serde`), and the
  floating-point measurements (distances, bearings, the local intensity
  formula, float range checks and number formatting).
- `tests/` — tests of the library.
