# rdict

A dictionary client for the Youdao mobile site: it reads a result page,
turns it into a translation (English, French, Japanese or Korean to and from
Chinese), and renders it as Markdown, with or without ANSI colors.

The library in `src/` is verified with Verus. Its contracts state what each
parser reads from a page, what each renderer prints, and how a lookup moves
between the cache and the network.

- `text`: trimming, stripping and splitting of text.
- `html`: the queries on HTML that the parsers make, through `scraper`.
- `parse`: the result page and the parsers of each language pair.
- `render`: the Markdown renderings, colored through `owo-colors`.
- `rdict`: the translation of a page, read by the script of the text looked up.
- `lookup`: the decisions of a lookup (cache read, fetch, cache write).
- `model`: scripts, languages, and the addresses of pages and recordings.
- `cli`, `telegram`, `fonts`, `android`: what the front ends compute.
- `legacy`: the first generation of the parser and its terminal output.
- `laws`: properties that hold across the functions above.

`app/` holds the command-line program: arguments, HTTP, the SQLite cache
and the terminal.
