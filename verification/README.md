# bim_mes

Back end of a small manufacturing-execution system: master recipes drawn as
workflow diagrams, process orders executed step by step against them, and
master data (materials, locations, batches, handling units).

* `src/` — the verified library (Verus). It holds the service's rules: how
  requests are read (identifiers, paging, filters), which refusal answers a
  request and in what order refusals are checked, what is stored on create
  and on patch, the process-order life cycle, and what each response shows.
  Each public function carries its contract; the laws of the service (order
  life cycle, identifier round trip, patch behaviour, diagram save and read
  back) are proof functions beside the code they speak of.
* `tests/` — tests on concrete values.
* `app/` — the actix-web server and the PostgreSQL access (sqlx): it reads
  the rows and looks up the records a request names, hands what it found to
  the library, and writes and sends what the library answers.
