# bursar

Double-entry bookkeeping for several small entities, each with its own ledger.

`src/` is the library, written in Verus and verified: money amounts and their
display, calendar arithmetic, fiscal years and periods, journal entry rules
(numbering, editability, reconciliation), receivable and payable payments,
envelope budgeting, depreciation and recurring-entry schedules, tax review
states, the nine reports, the inter-entity write protocol with its rollback
and startup recovery, and the self-update flow. Contracts state each
function's result, except what comes from the clock or chance (the time
stamped on a report, a fresh random id), of which they state the form; proof functions state the laws that hold across calls
(totals agree, schedules sum to cost, pairs of inter-entity entries are never
left one-sided).

`app/` is the terminal program around it: SQLite storage, file and terminal
access, and the drivers that carry out the library's protocols against the
databases.

`tests/` exercises the library on concrete values.
