# rust-cloud-lab

A small REST service that stores messages in an object store (S3) and passes
messages through a queue (SQS).

- `src/` is the verified library: the handlers (`services::s3::s3`,
  `services::sqs::sqs`), the answers they give (`services::response`), the
  store and queue interfaces (`infra::*::repository`), the application state,
  the settings of the store and the queue, and the keys messages are stored
  under (`infra::s3::object_key`).
- `app/` is the HTTP program: it reads the environment, connects to the store
  and the queue, and routes requests to the library's handlers.
- `tests/` runs the handlers against fixed-answer and in-memory stores and queues.
