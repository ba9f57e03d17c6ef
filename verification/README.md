# device_scheduler

The core of a service that runs daily commands on remote devices.

- `src/` is the verified library: device and task records, the per-device
  run queue and its daily plan (which tasks are due and how long to wait),
  the table of connected devices and the decisions taken on web requests.
- `app/` is the service around it: the two TCP listeners, the HTTP calls to
  the database service, the JSON forms of the records, and the jobs that
  sleep and write to the sockets.
- `tests/` exercises the library on concrete values.
