# psst_theme

Parsing of user theme stylesheets for a music player's interface: CSS-like
custom properties (`--grey-000: #000000;`) become colours, font families,
font weights and font sizes. The library is written in Verus; every
function carries a contract and is verified.

Layout:

- `src/text.rs`: the character-level model (white space, trimming, ASCII
  case, finding characters) and conversions between `&str`, `String` and
  character vectors.
- `src/css.rs`: comments, blocks, `;`-separated declarations, property names.
- `src/color.rs`: hexadecimal colours, colour names, `rgb(..)` and `hsl(..)`
  forms with their components checked against the number grammar of
  `str::parse::<f64>`.
- `src/font.rs`: font families, weights and sizes.
- `src/theme.rs`: the colour table and the stylesheet parser.
- `src/overrides.rs`: which theme colours and fonts a parsed stylesheet sets.
- `src/laws.rs`: properties proved of all inputs.
- `app/`: reading the stylesheet from disk, the floating-point conversion of
  `rgb(..)`/`hsl(..)` components and font sizes, and setting the druid
  environment.
