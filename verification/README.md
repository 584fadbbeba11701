# msas

The Mainframe Security Auditing Suite: scanners run probe scripts on a z/OS
system, read what the probes wrote, and turn the lines that carry a severity
marker into findings; findings are enriched with compliance identifiers and
written as console output and JSON, HTML, CSV or PDF reports.

- `src/` is the library, verified with Verus: text handling (`text`), the
  probe output readers (`scanners::*::parse_output`), the scan as a step
  function (`scanners::scan`), compliance enrichment, the CSV records and
  report summaries (`report`), and the command line's decisions (`cli`).
- `app/` is the program around it: argument parsing, configuration and mapping
  files, running the probe scripts, and rendering the HTML, JSON and PDF
  reports.
- `tests/` exercise the library.
